//! The devices behind the ports of the Space Invaders board: the control panel, the
//! shift register and the sound triggers.

use vstd::prelude::*;
use crate::bits::join16;
use crate::cpu::Machine;

verus! {

/// The bit of the coin slot in the first port.
pub const CREDIT: u8 = 0x01;

/// The bit of the start button for two players.
pub const P2_START: u8 = 0x02;

/// The bit of the start button for one player.
pub const P1_START: u8 = 0x04;

/// The bit of the fire button.
pub const FIRE: u8 = 0x10;

/// The bit of the lever held to the left.
pub const LEFT: u8 = 0x20;

/// The bit of the lever held to the right.
pub const RIGHT: u8 = 0x40;

/// A key of the keyboard, as far as the board has a use for it.
#[derive(Debug, Clone, Copy, PartialEq, Eq, Structural)]
pub enum Key {
    Left,
    Right,
    Space,
    A,
    C,
    D,
    F,
    Key1,
    Key2,
    /// Any other key.
    Other,
}

/// A key going down or coming up.
#[derive(Debug, Clone, Copy, PartialEq, Eq, Structural)]
pub enum KeyEvent {
    Pressed(Key),
    Released(Key),
}

/// One of the nine sounds of the board.
#[derive(Debug, Clone, Copy, PartialEq, Eq, Structural)]
pub enum Sound {
    Ufo,
    Shot,
    Flash,
    EnemyDeath,
    FirstMovement,
    SecondMovement,
    ThirdMovement,
    FourthMovement,
    UfoHit,
}

/// What a write to a sound port asks of the sound hardware.
#[derive(Debug, Clone, Copy, PartialEq, Eq, Structural)]
pub enum Cue {
    /// Start the sound unless it is playing.
    Start(Sound),
    /// Start the sound if it is silent, stop it if it is playing.
    Toggle(Sound),
}

/// A request for a port that the board does not have.
#[derive(Debug, Clone, Copy, PartialEq, Eq, Structural)]
pub enum PortFault {
    /// An `IN` from `port`.
    Input { port: u8 },
    /// An `OUT` to `port`.
    Output { port: u8 },
}

/// The devices as a mathematical value.
pub struct PortState {
    pub first_port: u8,
    pub second_port: u8,
    pub shift_offset: u8,
    pub shiftx: u8,
    pub shifty: u8,
    pub last_port_three: u8,
    pub last_port_five: u8,
    pub cues: Seq<Cue>,
}

/// The devices behind the ports. The board reads ports 0 to 3 and writes ports 2 to
/// 6; it has no other port.
pub struct Ports {
    /// The control panel: one bit for each control that is held.
    pub first_port: u8,
    /// The switches of the second port.
    pub second_port: u8,
    /// How far the window of the shift register is moved, as written to port 2.
    pub shift_offset: u8,
    /// The low byte of the shift register.
    pub shiftx: u8,
    /// The high byte of the shift register.
    pub shifty: u8,
    /// The last byte written to port 3.
    pub last_port_three: u8,
    /// The last byte written to port 5.
    pub last_port_five: u8,
    /// The sound requests since they were last taken, oldest first.
    pub cues: Vec<Cue>,
}

impl View for Ports {
    type V = PortState;

    open spec fn view(&self) -> PortState {
        PortState {
            first_port: self.first_port,
            second_port: self.second_port,
            shift_offset: self.shift_offset,
            shiftx: self.shiftx,
            shifty: self.shifty,
            last_port_three: self.last_port_three,
            last_port_five: self.last_port_five,
            cues: self.cues@,
        }
    }
}

impl Key {
    /// The bit of the control that a key works, or zero for a key that works none.
    pub open spec fn mask(self) -> u8 {
        match self {
            Key::Left | Key::A => LEFT,
            Key::C => CREDIT,
            Key::Right | Key::D => RIGHT,
            Key::Space | Key::F => FIRE,
            Key::Key1 => P1_START,
            Key::Key2 => P2_START,
            Key::Other => 0,
        }
    }

    /// The bit of the control that the key works, or zero.
    pub fn control(self) -> (mask: u8)
        ensures
            mask == self.mask(),
    {
        match self {
            Key::Left | Key::A => LEFT,
            Key::C => CREDIT,
            Key::Right | Key::D => RIGHT,
            Key::Space | Key::F => FIRE,
            Key::Key1 => P1_START,
            Key::Key2 => P2_START,
            Key::Other => 0,
        }
    }
}

impl PortState {
    /// The devices of a board that was just switched on.
    pub open spec fn initial() -> PortState {
        PortState {
            first_port: 1,
            second_port: 0,
            shift_offset: 0,
            shiftx: 0,
            shifty: 0,
            last_port_three: 0,
            last_port_five: 0,
            cues: Seq::empty(),
        }
    }

    /// The byte that the shift register shows: the eight bits of the 16-bit register
    /// `shifty:shiftx` that start `shift_offset` places below its top. Offsets above 8
    /// count as 8.
    pub open spec fn shifted(self) -> u8 {
        let register: int = self.shifty * 256 + self.shiftx;
        let distance: int = if self.shift_offset >= 8 {
            0
        } else {
            8 - self.shift_offset
        };
        ((register / vstd::arithmetic::power2::pow2(distance as nat) as int) % 256) as u8
    }

    /// Whether the board has an input port of this number.
    pub open spec fn reads(port: u8) -> bool {
        port <= 3
    }

    /// Whether the board has an output port of this number.
    pub open spec fn writes(port: u8) -> bool {
        2 <= port <= 6
    }

    /// The byte that a read of `port` gives: port 0 reads as 1, port 1 is the control
    /// panel, port 2 the switches, port 3 the shift register. The board has no other
    /// input port.
    pub open spec fn port_value(self, port: u8) -> u8 {
        if port == 0 {
            1
        } else if port == 1 {
            self.first_port
        } else if port == 2 {
            self.second_port
        } else if port == 3 {
            self.shifted()
        } else {
            0
        }
    }

    /// The sounds that a write of `byte` to port 3 asks for, after `before` was
    /// written last: one for each of the low four bits that changed.
    pub open spec fn cues_of_three(before: u8, byte: u8) -> Seq<Cue> {
        (if before & 0x01 != byte & 0x01 {
            seq![Cue::Toggle(Sound::Ufo)]
        } else {
            Seq::empty()
        }) + (if before & 0x02 != byte & 0x02 {
            seq![Cue::Start(Sound::Shot)]
        } else {
            Seq::empty()
        }) + (if before & 0x04 != byte & 0x04 {
            seq![Cue::Start(Sound::Flash)]
        } else {
            Seq::empty()
        }) + (if before & 0x08 != byte & 0x08 {
            seq![Cue::Start(Sound::EnemyDeath)]
        } else {
            Seq::empty()
        })
    }

    /// The sounds that a write of `byte` to port 5 asks for, after `before` was
    /// written last: one for each of the low five bits that changed.
    pub open spec fn cues_of_five(before: u8, byte: u8) -> Seq<Cue> {
        (if before & 0x01 != byte & 0x01 {
            seq![Cue::Start(Sound::FirstMovement)]
        } else {
            Seq::empty()
        }) + (if before & 0x02 != byte & 0x02 {
            seq![Cue::Start(Sound::SecondMovement)]
        } else {
            Seq::empty()
        }) + (if before & 0x04 != byte & 0x04 {
            seq![Cue::Start(Sound::ThirdMovement)]
        } else {
            Seq::empty()
        }) + (if before & 0x08 != byte & 0x08 {
            seq![Cue::Start(Sound::FourthMovement)]
        } else {
            Seq::empty()
        }) + (if before & 0x10 != byte & 0x10 {
            seq![Cue::Start(Sound::UfoHit)]
        } else {
            Seq::empty()
        })
    }

    /// The devices after `byte` was written to `port`. Port 2 sets the offset of the
    /// shift register. Port 4 feeds the register: the byte becomes its high byte and
    /// the high byte of before its low byte. Ports 3 and 5 ask for sounds. Port 6 does
    /// nothing.
    pub open spec fn after_output(self, port: u8, byte: u8) -> PortState {
        if port == 2 {
            PortState { shift_offset: byte, ..self }
        } else if port == 3 {
            PortState {
                cues: self.cues + Self::cues_of_three(self.last_port_three, byte),
                last_port_three: byte,
                ..self
            }
        } else if port == 4 {
            PortState { shiftx: self.shifty, shifty: byte, ..self }
        } else if port == 5 {
            PortState {
                cues: self.cues + Self::cues_of_five(self.last_port_five, byte),
                last_port_five: byte,
                ..self
            }
        } else {
            self
        }
    }

    /// The devices after a key went down or came up: the bit of its control is set
    /// or cleared in the first port.
    pub open spec fn after_event(self, event: KeyEvent) -> PortState {
        match event {
            KeyEvent::Pressed(key) => PortState {
                first_port: self.first_port | key.mask(),
                ..self
            },
            KeyEvent::Released(key) => PortState {
                first_port: self.first_port & !key.mask(),
                ..self
            },
        }
    }
}

impl Ports {
    /// The devices of a board that was just switched on.
    pub fn new() -> (ports: Ports)
        ensures
            ports@ == PortState::initial(),
    {
        Ports {
            first_port: 1,
            second_port: 0,
            shift_offset: 0,
            shiftx: 0,
            shifty: 0,
            last_port_three: 0,
            last_port_five: 0,
            cues: Vec::new(),
        }
    }

    /// The byte that the shift register shows.
    pub fn shifted(&self) -> (byte: u8)
        ensures
            byte == self@.shifted(),
    {
        let value: u16 = join16(self.shifty, self.shiftx);
        let distance: u16 = if self.shift_offset >= 8 {
            0
        } else {
            8 - self.shift_offset as u16
        };
        proof {
            crate::bits::lemma_window(value, distance);
            vstd::bits::lemma_u16_shr_is_div(value, distance);
        }
        ((value >> distance) & 0xff) as u8
    }

    /// Whether the board has an input port of this number.
    pub fn reads(port: u8) -> (has: bool)
        ensures
            has == PortState::reads(port),
    {
        port <= 3
    }

    /// Whether the board has an output port of this number.
    pub fn writes(port: u8) -> (has: bool)
        ensures
            has == PortState::writes(port),
    {
        2 <= port && port <= 6
    }

    /// Adds `cue` to the sound requests if `before` and `byte` differ in the bit `mask`.
    fn cue_if_changed(&mut self, before: u8, byte: u8, mask: u8, cue: Cue)
        ensures
            final(self)@ == (PortState {
                cues: old(self)@.cues + (if before & mask != byte & mask {
                    seq![cue]
                } else {
                    Seq::empty()
                }),
                ..old(self)@
            }),
    {
        proof {
            crate::bits::lemma_changed(before, byte, mask);
        }
        if (before & mask) ^ (byte & mask) > 0 {
            self.cues.push(cue);
            assert(self@.cues =~= old(self)@.cues + seq![cue]);
        } else {
            assert(self@.cues =~= old(self)@.cues + Seq::<Cue>::empty());
        }
    }

    /// A write of `byte` to port 3: a sound request for each of the low four bits that
    /// changed since the last write.
    fn sound_three(&mut self, byte: u8)
        ensures
            final(self)@ == (PortState {
                cues: old(self)@.cues + PortState::cues_of_three(old(self)@.last_port_three, byte),
                last_port_three: byte,
                ..old(self)@
            }),
    {
        let before: u8 = self.last_port_three;
        let ghost start: Seq<Cue> = self@.cues;
        let ghost first: Seq<Cue> = if before & 0x01 != byte & 0x01 {
            seq![Cue::Toggle(Sound::Ufo)]
        } else {
            Seq::empty()
        };
        let ghost second: Seq<Cue> = if before & 0x02 != byte & 0x02 {
            seq![Cue::Start(Sound::Shot)]
        } else {
            Seq::empty()
        };
        let ghost third: Seq<Cue> = if before & 0x04 != byte & 0x04 {
            seq![Cue::Start(Sound::Flash)]
        } else {
            Seq::empty()
        };
        let ghost fourth: Seq<Cue> = if before & 0x08 != byte & 0x08 {
            seq![Cue::Start(Sound::EnemyDeath)]
        } else {
            Seq::empty()
        };
        self.cue_if_changed(before, byte, 0x01, Cue::Toggle(Sound::Ufo));
        self.cue_if_changed(before, byte, 0x02, Cue::Start(Sound::Shot));
        assert(self@.cues =~= start + (first + second));
        self.cue_if_changed(before, byte, 0x04, Cue::Start(Sound::Flash));
        assert(self@.cues =~= start + (first + second + third));
        self.cue_if_changed(before, byte, 0x08, Cue::Start(Sound::EnemyDeath));
        assert(self@.cues =~= start + (first + second + third + fourth));
        self.last_port_three = byte;
    }

    /// A write of `byte` to port 5: a sound request for each of the low five bits that
    /// changed since the last write.
    fn sound_five(&mut self, byte: u8)
        ensures
            final(self)@ == (PortState {
                cues: old(self)@.cues + PortState::cues_of_five(old(self)@.last_port_five, byte),
                last_port_five: byte,
                ..old(self)@
            }),
    {
        let before: u8 = self.last_port_five;
        let ghost start: Seq<Cue> = self@.cues;
        let ghost first: Seq<Cue> = if before & 0x01 != byte & 0x01 {
            seq![Cue::Start(Sound::FirstMovement)]
        } else {
            Seq::empty()
        };
        let ghost second: Seq<Cue> = if before & 0x02 != byte & 0x02 {
            seq![Cue::Start(Sound::SecondMovement)]
        } else {
            Seq::empty()
        };
        let ghost third: Seq<Cue> = if before & 0x04 != byte & 0x04 {
            seq![Cue::Start(Sound::ThirdMovement)]
        } else {
            Seq::empty()
        };
        let ghost fourth: Seq<Cue> = if before & 0x08 != byte & 0x08 {
            seq![Cue::Start(Sound::FourthMovement)]
        } else {
            Seq::empty()
        };
        let ghost fifth: Seq<Cue> = if before & 0x10 != byte & 0x10 {
            seq![Cue::Start(Sound::UfoHit)]
        } else {
            Seq::empty()
        };
        self.cue_if_changed(before, byte, 0x01, Cue::Start(Sound::FirstMovement));
        self.cue_if_changed(before, byte, 0x02, Cue::Start(Sound::SecondMovement));
        assert(self@.cues =~= start + (first + second));
        self.cue_if_changed(before, byte, 0x04, Cue::Start(Sound::ThirdMovement));
        assert(self@.cues =~= start + (first + second + third));
        self.cue_if_changed(before, byte, 0x08, Cue::Start(Sound::FourthMovement));
        assert(self@.cues =~= start + (first + second + third + fourth));
        self.cue_if_changed(before, byte, 0x10, Cue::Start(Sound::UfoHit));
        assert(self@.cues =~= start + (first + second + third + fourth + fifth));
        self.last_port_five = byte;
    }

    /// Sets or clears the bit of a key's control in the first port.
    pub fn handle_event(&mut self, event: KeyEvent)
        ensures
            final(self)@ == old(self)@.after_event(event),
    {
        match event {
            KeyEvent::Pressed(key) => self.keydown(key),
            KeyEvent::Released(key) => self.keyup(key),
        }
    }

    /// A key went down: the bit of its control is set.
    pub fn keydown(&mut self, key: Key)
        ensures
            final(self)@ == old(self)@.after_event(KeyEvent::Pressed(key)),
    {
        self.first_port = self.first_port | key.control();
    }

    /// A key came up: the bit of its control is cleared.
    pub fn keyup(&mut self, key: Key)
        ensures
            final(self)@ == old(self)@.after_event(KeyEvent::Released(key)),
    {
        self.first_port = self.first_port & !key.control();
    }

    /// Hands out the sound requests that came in since the last call, oldest first.
    pub fn take_cues(&mut self) -> (cues: Vec<Cue>)
        ensures
            cues@ == old(self)@.cues,
            final(self)@ == (PortState { cues: Seq::empty(), ..old(self)@ }),
    {
        let mut cues: Vec<Cue> = Vec::new();
        core::mem::swap(&mut cues, &mut self.cues);
        cues
    }
}

impl Machine for Ports {
    open spec fn reads(&self, port: u8) -> bool {
        PortState::reads(port)
    }

    open spec fn writes(&self, port: u8) -> bool {
        PortState::writes(port)
    }

    /// The byte that a read of `port` gives. Reading changes nothing.
    fn input(&mut self, port: u8) -> (value: u8)
        ensures
            value == old(self)@.port_value(port),
            final(self)@ == old(self)@,
    {
        match port {
            0 => 1,
            1 => self.first_port,
            2 => self.second_port,
            _ => self.shifted(),
        }
    }

    /// Takes `byte` at `port`: port 2 sets the offset of the shift register, port 4
    /// feeds it, ports 3 and 5 ask for sounds, port 6 does nothing.
    fn output(&mut self, port: u8, byte: u8)
        ensures
            final(self)@ == old(self)@.after_output(port, byte),
    {
        match port {
            2 => {
                self.shift_offset = byte;
            },
            3 => self.sound_three(byte),
            4 => {
                self.shiftx = self.shifty;
                self.shifty = byte;
            },
            5 => self.sound_five(byte),
            _ => {},
        }
    }
}

} // verus!
