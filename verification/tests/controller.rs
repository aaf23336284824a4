use inaccunes::system::controller::Controller;

#[test]
fn capture_byte_has_one_bit_for_each_button() {
    let mut controller = Controller::default();
    assert_eq!(controller.capture_byte(), 0x00);
    controller.button_a = true;
    assert_eq!(controller.capture_byte(), 0x01);
    controller.button_a = false;
    controller.button_b = true;
    assert_eq!(controller.capture_byte(), 0x02);
    controller.button_b = false;
    controller.button_select = true;
    assert_eq!(controller.capture_byte(), 0x04);
    controller.button_select = false;
    controller.button_start = true;
    assert_eq!(controller.capture_byte(), 0x08);
    controller.button_start = false;
    controller.button_up = true;
    assert_eq!(controller.capture_byte(), 0x10);
    controller.button_up = false;
    controller.button_down = true;
    assert_eq!(controller.capture_byte(), 0x20);
    controller.button_down = false;
    controller.button_left = true;
    assert_eq!(controller.capture_byte(), 0x40);
    controller.button_left = false;
    controller.button_right = true;
    assert_eq!(controller.capture_byte(), 0x80);
    controller.button_a = true;
    controller.button_up = true;
    assert_eq!(controller.capture_byte(), 0x91);
    controller.button_b = true;
    controller.button_select = true;
    controller.button_start = true;
    controller.button_down = true;
    controller.button_left = true;
    assert_eq!(controller.capture_byte(), 0xFF);
}

#[test]
fn reads_shift_the_buttons_out_and_ones_in() {
    let mut controller = Controller::default();
    controller.button_b = true;
    controller.button_down = true;
    controller.set_latch_state(true);
    controller.set_latch_state(false);
    let bits: Vec<u8> = (0..12).map(|_| controller.perform_read()).collect();
    assert_eq!(bits, vec![0, 1, 0, 0, 0, 1, 0, 0, 1, 1, 1, 1]);
}

#[test]
fn reads_with_the_latch_on_return_button_a() {
    let mut controller = Controller::default();
    controller.button_b = true;
    controller.set_latch_state(true);
    assert_eq!(controller.perform_read(), 0);
    assert_eq!(controller.perform_read(), 0);
    controller.button_a = true;
    assert_eq!(controller.perform_read(), 1);
    assert_eq!(controller.perform_read(), 1);
    // The last read captured A and B.
    controller.button_a = false;
    controller.button_b = false;
    controller.set_latch_state(false);
    assert_eq!(controller.perform_read(), 1);
    assert_eq!(controller.perform_read(), 1);
    assert_eq!(controller.perform_read(), 0);
}

#[test]
fn an_unlatched_controller_reads_its_empty_register() {
    let mut controller = Controller::default();
    controller.button_a = true;
    assert_eq!(controller.perform_read(), 0);
    // A one came in at the top: eight reads later it comes out.
    let bits: Vec<u8> = (0..9).map(|_| controller.perform_read()).collect();
    assert_eq!(bits, vec![0, 0, 0, 0, 0, 0, 0, 1, 1]);
}

#[test]
fn describe_shows_the_buttons() {
    let mut controller = Controller::default();
    assert_eq!(controller.describe(), "abesudlr");
    controller.button_a = true;
    controller.button_select = true;
    controller.button_right = true;
    assert_eq!(controller.describe(), "AbEsudlR");
    controller.button_b = true;
    controller.button_start = true;
    controller.button_up = true;
    controller.button_down = true;
    controller.button_left = true;
    assert_eq!(controller.describe(), "ABESUDLR");
}
