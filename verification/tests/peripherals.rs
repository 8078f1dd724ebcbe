use nes_emu::controller::{Controller, BUTTON_A, BUTTON_RIGHT, BUTTON_SELECT, BUTTON_START};
use nes_emu::frame::Frame;
use nes_emu::nes::bus::Bus;
use nes_emu::nes::cpu::Nes6502;
use nes_emu::nes::Nes;
use nes_emu::network::{EmulatorMessage, MultiplayerState};
use nes_emu::ppu::frame::Frame as PixelFrame;
use nes_emu::ppu::oam::Oam;
use nes_emu::state::save_state;

#[test]
fn controller_serial_readout_in_button_order() {
    let mut pad = Controller::new();
    pad.set_button(BUTTON_A, true);
    pad.set_button(BUTTON_SELECT, true);
    pad.set_button(BUTTON_RIGHT, true);
    assert_eq!(pad.get_reg_value(), 0b1000_0101);
    pad.cpu_write(1);
    pad.cpu_write(0);
    let bits: Vec<u8> = (0..8).map(|_| pad.cpu_read()).collect();
    assert_eq!(bits, vec![1, 0, 1, 0, 0, 0, 0, 1]);
    assert!(!pad.readfullregister());
    // past the eighth button every read gives 1
    assert_eq!(pad.cpu_read(), 1);
    assert!(pad.readfullregister());
    assert!(!pad.readfullregister());
}

#[test]
fn controller_strobe_holds_first_button() {
    let mut pad = Controller::new();
    pad.set_reg_value(BUTTON_START);
    pad.cpu_write(1);
    assert_eq!(pad.cpu_read(), 0);
    assert_eq!(pad.cpu_read(), 0);
    pad.set_button(BUTTON_A, true);
    assert_eq!(pad.cpu_read(), 1);
    pad.set_button(BUTTON_A, false);
    assert_eq!(pad.get_reg_value(), BUTTON_START);
}

#[test]
fn network_sends_only_changes() {
    let mut host = MultiplayerState::new(true);
    assert_eq!(host.send_controller_state(5), None);
    host.set_sender();
    assert_eq!(
        host.send_controller_state(5),
        Some(EmulatorMessage::ControllerState { player_num: 1, controller_bits: 5 })
    );
    host.mark_sent(5);
    assert_eq!(host.send_controller_state(5), None);
    assert_eq!(
        host.send_controller_state(6),
        Some(EmulatorMessage::ControllerState { player_num: 1, controller_bits: 6 })
    );
    let mut guest = MultiplayerState::new(false);
    guest.set_sender();
    assert_eq!(
        guest.send_controller_state(1),
        Some(EmulatorMessage::ControllerState { player_num: 2, controller_bits: 1 })
    );
    guest.set_remote_state(0x81);
    assert_eq!(guest.remote_state(), 0x81);
}

#[test]
fn rgb_frame_pixel_offset() {
    let mut frame = Frame::new(4, 2);
    assert_eq!(frame.get_buf().len(), 24);
    frame.draw_pixel(1, 0, (1, 2, 3));
    // the offset is x * 3 * width + x * 3
    assert_eq!(&frame.get_buf()[15..18], &[1, 2, 3]);
    frame.draw_pixel(0, 1, (9, 9, 9));
    assert_eq!(&frame.get_buf()[0..3], &[9, 9, 9]);
    // an offset past the end changes nothing
    frame.draw_pixel(3, 0, (7, 7, 7));
    assert!(!frame.get_buf().contains(&7));
}

#[test]
fn packed_frame_rows() {
    let mut frame = PixelFrame::new(3, 2);
    assert_eq!(frame.get_buf().len(), 6);
    frame.drawpixel(2, 1, (0x12, 0x34, 0x56));
    assert_eq!(frame.get_buf()[5], 0x123456);
    assert_eq!(frame.get_buf()[0], 0);
}

#[test]
fn oam_bytes_read_back() {
    let mut oam = Oam::new();
    oam.set_byte(0, 0x10);
    oam.set_byte(1, 0x22);
    oam.set_byte(2, 0x80);
    oam.set_byte(7, 0x33);
    assert_eq!(oam.get_y_position(), 0x10);
    assert_eq!(oam.get_index_number(), 0x22);
    assert_eq!(oam.get_attribute(), 0x80);
    assert_eq!(oam.get_x_position(), 0x33);
    assert_eq!(oam.get_byte(4), 0x10);
    assert_eq!(oam.get_byte(3), 0x33);
}

#[test]
fn flat_bus_reads_back_writes() {
    let mut bus = Bus::new();
    assert_eq!(bus.cpu_read(0x1234), Some(0));
    assert!(bus.cpu_write(0x1234, 0xAB));
    assert_eq!(bus.cpu_read(0x1234), Some(0xAB));
    let cpu = Nes6502::new();
    cpu.cpu_write(&mut bus, 0xFFFF, 1);
    assert_eq!(cpu.cpu_read(&bus, 0xFFFF), Some(1));
}

#[test]
fn console_game_loop_runs() {
    let mut nes = Nes::new();
    assert_eq!(nes.game_loop(10), Ok(()));
    assert_eq!(nes.bus.cpu_read(0), Some(0));
    nes.cpu.clock();
    save_state();
}

#[test]
fn vt_increment_x_crosses_a_row() {
    use_vt_row();
}

fn use_vt_row() {
    let mut v = nes_emu::ppu::registers::VtReg::new();
    v.set_data(0x2AB5);
    let d = v.get_data();
    let nx = v.get_nametablex();
    for _ in 0..32 {
        v.increment_x();
    }
    assert_eq!(v.get_nametablex(), 1 - nx);
    assert_eq!(v.get_data(), d ^ 0x0400);
    for _ in 0..32 {
        v.increment_x();
    }
    assert_eq!(v.get_data(), d);
}
