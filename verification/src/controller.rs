//! A standard NES controller: eight buttons read out serially.
use vstd::prelude::*;

verus! {

// Button masks, in the order the controller shifts them out.
pub const BUTTON_A: u8 = 0b0000_0001;
pub const BUTTON_B: u8 = 0b0000_0010;
pub const BUTTON_SELECT: u8 = 0b0000_0100;
pub const BUTTON_START: u8 = 0b0000_1000;
pub const BUTTON_UP: u8 = 0b0001_0000;
pub const BUTTON_DOWN: u8 = 0b0010_0000;
pub const BUTTON_LEFT: u8 = 0b0100_0000;
pub const BUTTON_RIGHT: u8 = 0b1000_0000;

/// The controller's state: (buttons held, strobe, index of the next bit,
/// whether a read went past the eighth bit since the last check).
pub type ControllerState = (u8, bool, u8, bool);

/// Bit `i` of `b`, as 0 or 1.
pub open spec fn bit_of(b: u8, i: u8) -> u8 {
    (b >> i) & 1
}

/// One serial read: the value returned and the state after it.
pub open spec fn read_step(s: ControllerState) -> (ControllerState, u8) {
    if s.2 > 7 {
        ((s.0, s.1, s.2, true), 1)
    } else if s.1 {
        (s, bit_of(s.0, s.2))
    } else {
        ((s.0, s.1, (s.2 + 1) as u8, s.3), bit_of(s.0, s.2))
    }
}

/// The state after a write of `data` to the controller port.
pub open spec fn write_step(s: ControllerState, data: u8) -> ControllerState {
    if data % 2 == 1 {
        (s.0, true, 0, s.3)
    } else {
        (s.0, false, s.2, s.3)
    }
}

/// The state after `n` reads, with the values they returned.
pub open spec fn reads(s: ControllerState, n: nat) -> (ControllerState, Seq<u8>)
    decreases n,
{
    if n == 0 {
        (s, Seq::empty())
    } else {
        let (s1, out) = reads(s, (n - 1) as nat);
        let (s2, r) = read_step(s1);
        (s2, out.push(r))
    }
}

proof fn lemma_bit_select(b: u8, i: u8)
    by (bit_vector)
    requires
        i < 8,
    ensures
        (b & (1u8 << i)) >> i == (b >> i) & 1u8,
{
}

/// Holds the buttons and the serial read-out position.
pub struct Controller {
    button: u8,
    strobe: bool,
    index: u8,
    dataread: bool,
}

impl View for Controller {
    type V = ControllerState;

    closed spec fn view(&self) -> ControllerState {
        (self.button, self.strobe, self.index, self.dataread)
    }
}

impl Controller {
    /// A controller with no button pressed.
    pub fn new() -> (r: Self)
        ensures
            r@ == (0u8, false, 0u8, false),
    {
        Self { button: 0, index: 0, strobe: false, dataread: false }
    }

    /// A write to the port: bit 0 is the strobe, and while it is high the
    /// read-out restarts at the first button.
    pub fn cpu_write(&mut self, data: u8)
        ensures
            final(self)@ == write_step(old(self)@, data),
    {
        self.strobe = data % 2 == 1;
        if self.strobe {
            self.index = 0;
        }
    }

    /// Whether a read went past the eighth button since the last call; clears it.
    pub fn readfullregister(&mut self) -> (r: bool)
        ensures
            r == old(self)@.3,
            final(self)@ == (old(self)@.0, old(self)@.1, old(self)@.2, false),
    {
        let result = self.dataread;
        self.dataread = false;
        result
    }

    /// A serial read: the next button's bit; past the eighth, always 1.
    pub fn cpu_read(&mut self) -> (r: u8)
        ensures
            (final(self)@, r) == read_step(old(self)@),
    {
        if self.index > 7 {
            self.dataread = true;
            return 1;
        }
        proof {
            lemma_bit_select(self.button, self.index);
        }
        let response = (self.button & (1 << self.index)) >> self.index;
        if !self.strobe && self.index <= 7 {
            self.index = self.index + 1;
        }
        response
    }

    /// Replaces all eight buttons at once.
    pub fn set_reg_value(&mut self, byte: u8)
        ensures
            final(self)@ == (byte, old(self)@.1, old(self)@.2, old(self)@.3),
    {
        self.button = byte;
    }

    /// All eight buttons.
    pub fn get_reg_value(&self) -> (r: u8)
        ensures
            r == self@.0,
    {
        self.button
    }

    /// Presses or releases the buttons in the mask `button`.
    pub fn set_button(&mut self, button: u8, pressed: bool)
        ensures
            final(self)@ == (
                if pressed {
                    old(self)@.0 | button
                } else {
                    old(self)@.0 & !button
                },
                old(self)@.1,
                old(self)@.2,
                old(self)@.3,
            ),
    {
        if pressed {
            self.button = self.button | button;
        } else {
            self.button = self.button & !button;
        }
    }
}

/// The serial protocol: once the strobe is low and the position is at the
/// first button, the first eight reads give the buttons' bits A, B, Select,
/// Start, Up, Down, Left, Right in turn, and every later read gives 1.
pub proof fn lemma_serial_readout(s: ControllerState, n: nat)
    requires
        !s.1,
        s.2 == 0,
    ensures
        reads(s, n).1.len() == n,
        forall|k: int| 0 <= k < n && k < 8 ==> #[trigger] reads(s, n).1[k] == bit_of(s.0, k as u8),
        forall|k: int| 8 <= k < n ==> #[trigger] reads(s, n).1[k] == 1,
        reads(s, n).0.0 == s.0,
        !reads(s, n).0.1,
        n <= 8 ==> reads(s, n).0.2 == n,
        n > 8 ==> reads(s, n).0.2 == 8,
    decreases n,
{
    if n > 0 {
        lemma_serial_readout(s, (n - 1) as nat);
        let (s1, out) = reads(s, (n - 1) as nat);
        assert(reads(s, n).1 == out.push(read_step(s1).1));
    }
}

/// A strobe pulse (a write with bit 0 set, then one with it clear) makes
/// the next eight reads give the eight buttons, from A to Right.
pub proof fn law_strobe_then_read(s: ControllerState, hi: u8, lo: u8)
    requires
        hi % 2 == 1,
        lo % 2 == 0,
    ensures
        ({
            let t = write_step(write_step(s, hi), lo);
            forall|k: int| 0 <= k < 8 ==> #[trigger] reads(t, 8).1[k] == bit_of(s.0, k as u8)
        }),
{
    let t = write_step(write_step(s, hi), lo);
    lemma_serial_readout(t, 8);
}

} // verus!
