//! The enable and error-recovery sequence of the WAGO 750-671 and 750-672
//! stepper controllers. The controller acknowledges each control bit in its
//! status bytes a cycle or more later, so the sequence advances one step per
//! input cycle, and only on the acknowledgement it waits for.
use vstd::prelude::*;
use crate::bits::{load_byte, spec_image_bytes, spec_image_fits};
use crate::wago::{
    le_i16, spec_le_i16, spec_stepper_txpdo, stepper_txpdo_from_bytes, InitState, StepperBits, Wago750_671,
    Wago750_671InputPort, Wago750_671RxPdo, Wago750_672, Wago750_672RxPdo, WAGO_STEPPER_MAILBOX_BIT,
};

verus! {

/// Whether a bit of `mask` is set in `byte`.
pub open spec fn spec_has(byte: u8, mask: u8) -> bool {
    byte & mask != 0
}

/// The flags of control byte C1: enable, stop 2 when it is asked for, and the
/// start pulse when `start`.
pub open spec fn spec_c1_flags(bits: StepperBits, stop2_n: bool, start: bool) -> u8 {
    let base = if stop2_n { bits.c1_enable | bits.c1_stop2_n } else { bits.c1_enable };
    if start { base | bits.c1_start } else { base }
}

/// The mailbox toggle that the 750-671 reports: bit 7 of input byte 3.
pub open spec fn spec_mailbox_status_toggle(b: Seq<u8>) -> bool {
    b[3] & 0x80 != 0
}

/// Output data that carries a mailbox command: its first four bytes in the
/// velocity and acceleration words, its last two in the position bytes.
pub open spec fn spec_mailbox_rx(rx: Wago750_671RxPdo, m: [u8; 6]) -> Wago750_671RxPdo {
    Wago750_671RxPdo {
        velocity: spec_le_i16(m[0], m[1]),
        acceleration: (m[2] as u16 + 256 * (m[3] as u16)) as u16,
        target_position_l: m[4],
        target_position_m: m[5],
        target_position_h: 0,
        ..rx
    }
}

/// When a command is in flight and the controller reports its toggle, the
/// command is done: the mailbox bit drops, and a command that asked for it
/// returns the controller to speed control through the mode step. The
/// reported toggle is kept either way.
pub open spec fn spec_671_mailbox_ack(s: Wago750_671, toggle: bool) -> Wago750_671 {
    let acked = if s.mailbox_in_flight && toggle == s.mailbox_toggle {
        let cleared = Wago750_671 {
            mailbox_in_flight: false,
            mailbox_pending: None,
            mailbox_active: false,
            rxpdo: Wago750_671RxPdo { control_byte0: s.rxpdo.control_byte0 & !WAGO_STEPPER_MAILBOX_BIT, ..s.rxpdo },
            ..s
        };
        if s.mailbox_return_to_speed_mode {
            Wago750_671 {
                mailbox_return_to_speed_mode: false,
                desired_mode: s.bits.c1_speed_control,
                desired_control_byte3: 0,
                start_requested: false,
                initialized: false,
                state: InitState::SetMode,
                ..cleared
            }
        } else {
            cleared
        }
    } else {
        s
    };
    Wago750_671 { mailbox_last_status_toggle: toggle, ..acked }
}

/// Unless the controller is off, a reset it reports sends the sequence to the
/// reset step, else an error it reports to the error step.
pub open spec fn spec_671_checked_state(s: Wago750_671) -> InitState {
    if s.state != InitState::Off && spec_has(s.txpdo.status_byte3, s.bits.s3_reset) {
        InitState::ResetQuit
    } else if s.state != InitState::Off && spec_has(s.txpdo.status_byte2, s.bits.s2_error) {
        InitState::ErrorQuit
    } else {
        s.state
    }
}

/// The running step: the mode and control byte C3 are held, a queued mailbox
/// command goes out once, and the step moves on when the controller drops the
/// mode (back to the mode step), a start is asked for (to the start pulse),
/// or it reports a reset or an error.
pub open spec fn spec_671_running(s: Wago750_671) -> Wago750_671 {
    let b = s.bits;
    let s1 = s.txpdo.status_byte1;
    let rx = Wago750_671RxPdo {
        control_byte1: spec_c1_flags(b, s.desired_stop2_n, false) | s.desired_mode,
        control_byte2: s.rxpdo.control_byte2 & !b.c2_error_quit,
        control_byte3: s.desired_control_byte3 & !b.c3_reset_quit,
        ..s.rxpdo
    };
    let dispatch = s.mailbox_active && s.mailbox_pending is Some && !s.mailbox_in_flight;
    let waiting = s.mailbox_active && s.mailbox_pending is Some && s.mailbox_in_flight;
    let out = if dispatch {
        spec_mailbox_rx(
            Wago750_671RxPdo { control_byte0: rx.control_byte0 | WAGO_STEPPER_MAILBOX_BIT, ..rx },
            s.mailbox_pending->0,
        )
    } else if waiting {
        rx
    } else {
        Wago750_671RxPdo { control_byte0: rx.control_byte0 & !WAGO_STEPPER_MAILBOX_BIT, ..rx }
    };
    let after_faults = if spec_has(s.txpdo.status_byte3, b.s3_reset) {
        InitState::ResetQuit
    } else if spec_has(s.txpdo.status_byte2, b.s2_error) {
        InitState::ErrorQuit
    } else {
        InitState::Running
    };
    let mode_lost = spec_has(s1, b.s1_ready) && !spec_has(s1, s.desired_mode);
    Wago750_671 {
        rxpdo: out,
        mailbox_in_flight: dispatch || s.mailbox_in_flight,
        mailbox_logged_dispatch: dispatch || s.mailbox_logged_dispatch,
        initialized: if mode_lost { false } else { s.initialized },
        state: if mode_lost {
            InitState::SetMode
        } else if s.start_requested {
            InitState::StartPulseStart
        } else {
            after_faults
        },
        ..s
    }
}

/// One step of the 750-671's sequence from its current step, on the status
/// bytes it has just read.
pub open spec fn spec_671_sequence(s: Wago750_671) -> Wago750_671 {
    let b = s.bits;
    let s1 = s.txpdo.status_byte1;
    let flags = spec_c1_flags(b, s.desired_stop2_n, false);
    let c3 = s.desired_control_byte3 & !b.c3_reset_quit;
    let rx = s.rxpdo;
    match s.state {
        InitState::Off => Wago750_671 {
            initialized: false,
            rxpdo: Wago750_671RxPdo {
                control_byte1: 0,
                control_byte2: rx.control_byte2 & !b.c2_error_quit,
                control_byte3: rx.control_byte3 & !b.c3_reset_quit,
                ..rx
            },
            ..s
        },
        InitState::Enable => Wago750_671 {
            rxpdo: Wago750_671RxPdo { control_byte1: flags, ..rx },
            state: if spec_has(s1, b.s1_ready) { InitState::SetMode } else { InitState::Enable },
            ..s
        },
        InitState::SetMode => {
            let acked = spec_has(s1, b.s1_ready) && spec_has(s1, s.desired_mode);
            Wago750_671 {
                rxpdo: Wago750_671RxPdo { control_byte1: flags | s.desired_mode, control_byte3: c3, ..rx },
                initialized: acked || s.initialized,
                state: if !acked {
                    InitState::SetMode
                } else if s.start_requested {
                    InitState::StartPulseStart
                } else {
                    InitState::Running
                },
                ..s
            }
        },
        InitState::StartPulseStart => Wago750_671 {
            rxpdo: Wago750_671RxPdo {
                control_byte1: spec_c1_flags(b, s.desired_stop2_n, true) | s.desired_mode,
                control_byte3: c3,
                ..rx
            },
            state: if spec_has(s1, b.s1_start_ack) { InitState::StartPulseEnd } else { InitState::StartPulseStart },
            ..s
        },
        InitState::StartPulseEnd => {
            let dropped = !spec_has(s1, b.s1_start_ack);
            Wago750_671 {
                rxpdo: Wago750_671RxPdo { control_byte1: flags | s.desired_mode, control_byte3: c3, ..rx },
                start_requested: if dropped { false } else { s.start_requested },
                state: if dropped { InitState::Running } else { InitState::StartPulseEnd },
                ..s
            }
        },
        InitState::Running => spec_671_running(s),
        InitState::ErrorQuit => {
            let c2 = rx.control_byte2 | b.c2_error_quit;
            if spec_has(s.txpdo.status_byte2, b.s2_error) {
                Wago750_671 { rxpdo: Wago750_671RxPdo { control_byte2: c2, control_byte3: c3, ..rx }, ..s }
            } else {
                Wago750_671 {
                    rxpdo: Wago750_671RxPdo { control_byte2: c2 & !b.c2_error_quit, control_byte3: c3, ..rx },
                    initialized: false,
                    start_requested: false,
                    state: InitState::Enable,
                    ..s
                }
            }
        },
        InitState::ResetQuit => {
            let out = Wago750_671RxPdo {
                control_byte3: rx.control_byte3 | b.c3_reset_quit,
                control_byte2: rx.control_byte2 & !b.c2_error_quit,
                ..rx
            };
            if spec_has(s.txpdo.status_byte3, b.s3_reset) {
                Wago750_671 { rxpdo: out, ..s }
            } else {
                Wago750_671 { rxpdo: out, initialized: false, start_requested: false, state: InitState::Enable, ..s }
            }
        },
    }
}

/// One input cycle of the 750-671 on its twelve input bytes `b`: the input
/// data is taken over, a finished mailbox command is acknowledged, a reported
/// reset or error redirects the sequence, and the sequence takes its step.
pub open spec fn spec_671_input_step(s: Wago750_671, b: Seq<u8>) -> Wago750_671 {
    let read = Wago750_671 { txpdo: spec_stepper_txpdo(b), ..s };
    let acked = spec_671_mailbox_ack(read, spec_mailbox_status_toggle(b));
    spec_671_sequence(Wago750_671 { state: spec_671_checked_state(acked), ..acked })
}

/// The twelve input bytes of a stepper controller from bit `base` on.
fn load_stepper_bytes(input: &[u8], base: usize) -> (r: [u8; 12])
    requires
        base + 96 <= input.len() * 8,
        spec_image_fits(input.len() as nat),
    ensures
        r@ == spec_image_bytes(input@, base as int, 12),
{
    let r = [
        load_byte(input, base),
        load_byte(input, base + 8),
        load_byte(input, base + 16),
        load_byte(input, base + 24),
        load_byte(input, base + 32),
        load_byte(input, base + 40),
        load_byte(input, base + 48),
        load_byte(input, base + 56),
        load_byte(input, base + 64),
        load_byte(input, base + 72),
        load_byte(input, base + 80),
        load_byte(input, base + 88),
    ];
    assert(r@ =~= spec_image_bytes(input@, base as int, 12));
    r
}

impl Wago750_671 {
    fn acknowledge_mailbox(&mut self, toggle: bool)
        ensures
            *final(self) == spec_671_mailbox_ack(*old(self), toggle),
    {
        if self.mailbox_in_flight && toggle == self.mailbox_toggle {
            self.mailbox_in_flight = false;
            self.mailbox_pending = None;
            self.mailbox_active = false;
            self.rxpdo.control_byte0 = self.rxpdo.control_byte0 & !WAGO_STEPPER_MAILBOX_BIT;
            if self.mailbox_return_to_speed_mode {
                self.mailbox_return_to_speed_mode = false;
                self.desired_mode = self.bits.c1_speed_control;
                self.desired_control_byte3 = 0;
                self.start_requested = false;
                self.initialized = false;
                self.state = InitState::SetMode;
            }
        }
        self.mailbox_last_status_toggle = toggle;
    }

    fn checked_state(&self) -> (r: InitState)
        ensures
            r == spec_671_checked_state(*self),
    {
        let off = matches!(self.state, InitState::Off);
        if !off && self.txpdo.status_byte3 & self.bits.s3_reset != 0 {
            InitState::ResetQuit
        } else if !off && self.txpdo.status_byte2 & self.bits.s2_error != 0 {
            InitState::ErrorQuit
        } else {
            self.state
        }
    }

    fn c1_flags(&self, start: bool) -> (r: u8)
        ensures
            r == spec_c1_flags(self.bits, self.desired_stop2_n, start),
    {
        let base = if self.desired_stop2_n { self.bits.c1_enable | self.bits.c1_stop2_n } else { self.bits.c1_enable };
        if start { base | self.bits.c1_start } else { base }
    }

    fn running_out(&self) -> (r: Wago750_671RxPdo)
        ensures
            r == spec_671_running(*self).rxpdo,
    {
        let b = self.bits;
        let mut rx = self.rxpdo;
        rx.control_byte1 = self.c1_flags(false) | self.desired_mode;
        rx.control_byte2 = rx.control_byte2 & !b.c2_error_quit;
        rx.control_byte3 = self.desired_control_byte3 & !b.c3_reset_quit;
        if self.mailbox_active && self.mailbox_pending.is_some() && !self.mailbox_in_flight {
            let bytes = self.mailbox_pending.unwrap();
            rx.control_byte0 = rx.control_byte0 | WAGO_STEPPER_MAILBOX_BIT;
            rx.velocity = le_i16(bytes[0], bytes[1]);
            rx.acceleration = bytes[2] as u16 + 256 * (bytes[3] as u16);
            rx.target_position_l = bytes[4];
            rx.target_position_m = bytes[5];
            rx.target_position_h = 0;
        } else if !(self.mailbox_active && self.mailbox_pending.is_some()) {
            rx.control_byte0 = rx.control_byte0 & !WAGO_STEPPER_MAILBOX_BIT;
        }
        rx
    }

    fn running_state(&self) -> (r: InitState)
        ensures
            r == spec_671_running(*self).state,
    {
        let b = self.bits;
        let s1 = self.txpdo.status_byte1;
        if s1 & b.s1_ready != 0 && s1 & self.desired_mode == 0 {
            InitState::SetMode
        } else if self.start_requested {
            InitState::StartPulseStart
        } else if self.txpdo.status_byte3 & b.s3_reset != 0 {
            InitState::ResetQuit
        } else if self.txpdo.status_byte2 & b.s2_error != 0 {
            InitState::ErrorQuit
        } else {
            InitState::Running
        }
    }

    fn run_step(&mut self)
        ensures
            *final(self) == spec_671_running(*old(self)),
    {
        let rx = self.running_out();
        let state = self.running_state();
        let dispatch = self.mailbox_active && self.mailbox_pending.is_some() && !self.mailbox_in_flight;
        let s1 = self.txpdo.status_byte1;
        let mode_lost = s1 & self.bits.s1_ready != 0 && s1 & self.desired_mode == 0;
        self.rxpdo = rx;
        self.mailbox_in_flight = dispatch || self.mailbox_in_flight;
        self.mailbox_logged_dispatch = dispatch || self.mailbox_logged_dispatch;
        if mode_lost {
            self.initialized = false;
        }
        self.state = state;
    }

    fn off_step(&mut self)
        requires
            old(self).state == InitState::Off,
        ensures
            *final(self) == spec_671_sequence(*old(self)),
    {
        let b = self.bits;
        self.initialized = false;
        self.rxpdo.control_byte1 = 0;
        self.rxpdo.control_byte2 = self.rxpdo.control_byte2 & !b.c2_error_quit;
        self.rxpdo.control_byte3 = self.rxpdo.control_byte3 & !b.c3_reset_quit;
    }

    fn enable_step(&mut self)
        requires
            old(self).state == InitState::Enable,
        ensures
            *final(self) == spec_671_sequence(*old(self)),
    {
        self.rxpdo.control_byte1 = self.c1_flags(false);
        if self.txpdo.status_byte1 & self.bits.s1_ready != 0 {
            self.state = InitState::SetMode;
        }
    }

    fn set_mode_step(&mut self)
        requires
            old(self).state == InitState::SetMode,
        ensures
            *final(self) == spec_671_sequence(*old(self)),
    {
        let s1 = self.txpdo.status_byte1;
        self.rxpdo.control_byte1 = self.c1_flags(false) | self.desired_mode;
        self.rxpdo.control_byte3 = self.desired_control_byte3 & !self.bits.c3_reset_quit;
        if s1 & self.bits.s1_ready != 0 && s1 & self.desired_mode != 0 {
            self.initialized = true;
            if self.start_requested {
                self.state = InitState::StartPulseStart;
            } else {
                self.state = InitState::Running;
            }
        }
    }

    fn start_pulse_step(&mut self)
        requires
            old(self).state == InitState::StartPulseStart,
        ensures
            *final(self) == spec_671_sequence(*old(self)),
    {
        self.rxpdo.control_byte1 = self.c1_flags(true) | self.desired_mode;
        self.rxpdo.control_byte3 = self.desired_control_byte3 & !self.bits.c3_reset_quit;
        if self.txpdo.status_byte1 & self.bits.s1_start_ack != 0 {
            self.state = InitState::StartPulseEnd;
        }
    }

    fn start_pulse_end_step(&mut self)
        requires
            old(self).state == InitState::StartPulseEnd,
        ensures
            *final(self) == spec_671_sequence(*old(self)),
    {
        self.rxpdo.control_byte1 = self.c1_flags(false) | self.desired_mode;
        self.rxpdo.control_byte3 = self.desired_control_byte3 & !self.bits.c3_reset_quit;
        if self.txpdo.status_byte1 & self.bits.s1_start_ack == 0 {
            self.start_requested = false;
            self.state = InitState::Running;
        }
    }

    fn error_quit_step(&mut self)
        requires
            old(self).state == InitState::ErrorQuit,
        ensures
            *final(self) == spec_671_sequence(*old(self)),
    {
        let b = self.bits;
        self.rxpdo.control_byte2 = self.rxpdo.control_byte2 | b.c2_error_quit;
        self.rxpdo.control_byte3 = self.desired_control_byte3 & !b.c3_reset_quit;
        if self.txpdo.status_byte2 & b.s2_error == 0 {
            self.initialized = false;
            self.start_requested = false;
            self.rxpdo.control_byte2 = self.rxpdo.control_byte2 & !b.c2_error_quit;
            self.state = InitState::Enable;
        }
    }

    fn reset_quit_step(&mut self)
        requires
            old(self).state == InitState::ResetQuit,
        ensures
            *final(self) == spec_671_sequence(*old(self)),
    {
        let b = self.bits;
        self.rxpdo.control_byte3 = self.rxpdo.control_byte3 | b.c3_reset_quit;
        self.rxpdo.control_byte2 = self.rxpdo.control_byte2 & !b.c2_error_quit;
        if self.txpdo.status_byte3 & b.s3_reset == 0 {
            self.initialized = false;
            self.start_requested = false;
            self.state = InitState::Enable;
        }
    }

    fn sequence_step(&mut self)
        ensures
            *final(self) == spec_671_sequence(*old(self)),
    {
        match self.state {
            InitState::Off => self.off_step(),
            InitState::Enable => self.enable_step(),
            InitState::SetMode => self.set_mode_step(),
            InitState::StartPulseStart => self.start_pulse_step(),
            InitState::StartPulseEnd => self.start_pulse_end_step(),
            InitState::Running => self.run_step(),
            InitState::ErrorQuit => self.error_quit_step(),
            InitState::ResetQuit => self.reset_quit_step(),
        }
    }

    /// Reads the twelve input bytes at the module's input offset and takes
    /// one step of the enable sequence and the mailbox handshake.
    pub fn input(&mut self, input: &[u8])
        requires
            old(self).slot.tx_bit_offset + 96 <= input.len() * 8,
            spec_image_fits(input.len() as nat),
        ensures
            *final(self) == spec_671_input_step(*old(self), spec_image_bytes(input@, old(self).slot.tx_bit_offset as int, 12)),
    {
        let b = load_stepper_bytes(input, self.slot.tx_bit_offset);
        self.txpdo = stepper_txpdo_from_bytes(&b);
        let toggle = b[3] & 0x80 != 0;
        self.acknowledge_mailbox(toggle);
        self.state = self.checked_state();
        self.sequence_step();
    }

    /// A digital input, from status byte S3.
    pub fn get_input(&self, port: Wago750_671InputPort) -> (r: bool)
        ensures
            r == spec_has(
                self.txpdo.status_byte3,
                match port {
                    Wago750_671InputPort::DI1 => self.bits.s3_inputs[0],
                    Wago750_671InputPort::DI2 => self.bits.s3_inputs[1],
                },
            ),
    {
        let mask = match port {
            Wago750_671InputPort::DI1 => self.bits.s3_inputs[0],
            Wago750_671InputPort::DI2 => self.bits.s3_inputs[1],
        };
        self.txpdo.status_byte3 & mask != 0
    }
}

/// One step of the 750-672's sequence. Each enabling step holds control byte
/// C1 and moves on when status byte S1 mirrors it exactly; while running, the
/// error and reset quit bits are held unless the controller reports an error
/// or a reset, which sends the sequence to its quit step; a quit step sets its
/// bit and starts over from enabling.
pub open spec fn spec_672_sequence(s: Wago750_672) -> Wago750_672 {
    let b = s.bits;
    let s1 = s.txpdo.status_byte1;
    let flags = b.c1_enable | b.c1_stop2_n;
    let speed = flags | b.c1_speed_control;
    let pulse = (flags | b.c1_start) | b.c1_speed_control;
    let rx = s.rxpdo;
    match s.state {
        InitState::Off => Wago750_672 { initialized: false, ..s },
        InitState::Enable => Wago750_672 {
            rxpdo: Wago750_672RxPdo { control_byte1: flags, ..rx },
            state: if s1 == flags { InitState::SetMode } else { InitState::Enable },
            ..s
        },
        InitState::SetMode => Wago750_672 {
            rxpdo: Wago750_672RxPdo { control_byte1: speed, ..rx },
            initialized: s1 == speed || s.initialized,
            state: if s1 == speed { InitState::StartPulseStart } else { InitState::SetMode },
            ..s
        },
        InitState::StartPulseStart => Wago750_672 {
            rxpdo: Wago750_672RxPdo { control_byte1: pulse, ..rx },
            state: if s1 == pulse { InitState::StartPulseEnd } else { InitState::StartPulseStart },
            ..s
        },
        InitState::StartPulseEnd => Wago750_672 {
            rxpdo: Wago750_672RxPdo { control_byte1: speed, ..rx },
            state: if s1 == speed { InitState::Running } else { InitState::StartPulseEnd },
            ..s
        },
        InitState::Running => {
            let error = spec_has(s.txpdo.status_byte2, b.c2_error_quit);
            let reset = spec_has(s.txpdo.status_byte3, b.c3_reset_quit);
            Wago750_672 {
                rxpdo: Wago750_672RxPdo {
                    control_byte2: if error { rx.control_byte2 } else { rx.control_byte2 | b.c2_error_quit },
                    control_byte3: if reset { rx.control_byte3 } else { rx.control_byte3 | b.c3_reset_quit },
                    ..rx
                },
                state: if reset {
                    InitState::ResetQuit
                } else if error {
                    InitState::ErrorQuit
                } else {
                    InitState::Running
                },
                ..s
            }
        },
        InitState::ErrorQuit => Wago750_672 {
            rxpdo: Wago750_672RxPdo { control_byte2: rx.control_byte2 | b.c2_error_quit, ..rx },
            state: InitState::Enable,
            ..s
        },
        InitState::ResetQuit => Wago750_672 {
            rxpdo: Wago750_672RxPdo { control_byte3: rx.control_byte3 | b.c3_reset_quit, ..rx },
            state: InitState::Enable,
            ..s
        },
    }
}

/// One input cycle of the 750-672 on its twelve input bytes `b`: the input
/// data is taken over and the sequence takes its step.
pub open spec fn spec_672_input_step(s: Wago750_672, b: Seq<u8>) -> Wago750_672 {
    spec_672_sequence(Wago750_672 { txpdo: spec_stepper_txpdo(b), ..s })
}

impl Wago750_672 {
    fn sequence_step(&mut self)
        ensures
            *final(self) == spec_672_sequence(*old(self)),
    {
        let b = self.bits;
        let s1 = self.txpdo.status_byte1;
        let flags = b.c1_enable | b.c1_stop2_n;
        let speed = flags | b.c1_speed_control;
        match self.state {
            InitState::Off => {
                self.initialized = false;
            },
            InitState::Enable => {
                self.rxpdo.control_byte1 = flags;
                if s1 == flags {
                    self.state = InitState::SetMode;
                }
            },
            InitState::SetMode => {
                self.rxpdo.control_byte1 = speed;
                if s1 == speed {
                    self.initialized = true;
                    self.state = InitState::StartPulseStart;
                }
            },
            InitState::StartPulseStart => {
                let pulse = (flags | b.c1_start) | b.c1_speed_control;
                self.rxpdo.control_byte1 = pulse;
                if s1 == pulse {
                    self.state = InitState::StartPulseEnd;
                }
            },
            InitState::StartPulseEnd => {
                self.rxpdo.control_byte1 = speed;
                if s1 == speed {
                    self.state = InitState::Running;
                }
            },
            InitState::Running => {
                let c2 = b.c2_error_quit;
                let c3 = b.c3_reset_quit;
                if self.txpdo.status_byte2 & c2 != 0 {
                    self.state = InitState::ErrorQuit;
                } else {
                    self.rxpdo.control_byte2 = self.rxpdo.control_byte2 | c2;
                }
                if self.txpdo.status_byte3 & c3 != 0 {
                    self.state = InitState::ResetQuit;
                } else {
                    self.rxpdo.control_byte3 = self.rxpdo.control_byte3 | c3;
                }
            },
            InitState::ErrorQuit => {
                self.rxpdo.control_byte2 = self.rxpdo.control_byte2 | b.c2_error_quit;
                self.state = InitState::Enable;
            },
            InitState::ResetQuit => {
                self.rxpdo.control_byte3 = self.rxpdo.control_byte3 | b.c3_reset_quit;
                self.state = InitState::Enable;
            },
        }
    }

    /// Reads the twelve input bytes at the module's input offset and takes
    /// one step of the enable sequence.
    pub fn input(&mut self, input: &[u8])
        requires
            old(self).slot.tx_bit_offset + 96 <= input.len() * 8,
            spec_image_fits(input.len() as nat),
        ensures
            *final(self) == spec_672_input_step(*old(self), spec_image_bytes(input@, old(self).slot.tx_bit_offset as int, 12)),
    {
        let b = load_stepper_bytes(input, self.slot.tx_bit_offset);
        self.txpdo = stepper_txpdo_from_bytes(&b);
        self.sequence_step();
    }

    /// Digital input `port` (0 to 5), from status byte S3; `None` for any
    /// other port.
    pub fn get_input(&self, port: usize) -> (r: Option<bool>)
        ensures
            port < 6 ==> r == Some(spec_has(self.txpdo.status_byte3, self.bits.s3_inputs[port as int])),
            port >= 6 ==> r is None,
    {
        if port < 6 {
            Some(self.txpdo.status_byte3 & self.bits.s3_inputs[port] != 0)
        } else {
            None
        }
    }
}

} // verus!
