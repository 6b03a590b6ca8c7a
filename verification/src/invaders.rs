//! The Space Invaders board: a processor, the devices behind its ports, and the
//! pacing that runs the processor in step with the clock on the wall and interrupts
//! it twice for every frame of video.

use vstd::prelude::*;
use std::time::{Duration, Instant};
use crate::cpu::{Cpu, Machine};
use crate::memory::{LoadError, Ram};
use crate::opcode::Opcode;
use crate::ports::{Cue, KeyEvent, PortFault, PortState, Ports};
use crate::state::{Fault, PortRequest, State};

verus! {

/// The nanoseconds of a second.
pub const NANOS_PER_SEC: u64 = 1_000_000_000;

/// The clock rate of the processor, in cycles per second.
pub const HERTZ: u64 = 2_000_000;

/// The nanoseconds of one cycle at the clock rate.
pub const NANOS_PER_CYCLE: u64 = 500;

/// The cycles from one interrupt to the next: 8 ms at the clock rate.
pub const INTERRUPT_CYCLES: i64 = 16_000;

/// The most that one instruction can run past a budget: one cycle less than the
/// longest instruction takes.
pub const OVERRUN_CYCLES: i64 = 17;

/// Where the video memory starts.
pub const FRAMEBUFFER_START: usize = 0x2400;

/// Where the video memory ends.
pub const FRAMEBUFFER_END: usize = 0x4000;

/// Where the four parts of the program go.
pub const FILE_POSITIONS: [u16; 4] = [0, 0x800, 0x1000, 0x1800];

/// `std::time::Instant`, a point in time on a clock that does not run backwards. The
/// type is opaque: nothing is known of what a value of it holds.
#[verifier::external_type_specification]
#[verifier::external_body]
pub struct ExInstant(Instant);

/// `std::time::Instant::now`, the present point in time. The contract claims nothing
/// of what it returns.
pub assume_specification[ Instant::now ]() -> (now: Instant);

/// `std::time::Instant::saturating_duration_since`, the time from `earlier` to
/// `later`, or no time at all where `earlier` is the later one. The contract claims
/// nothing of what it returns.
pub assume_specification[ Instant::saturating_duration_since ](
    later: &Instant,
    earlier: Instant,
) -> (elapsed: Duration);

/// `std::time::Duration::as_nanos`, a length of time in whole nanoseconds. The
/// contract claims nothing of what it returns.
pub assume_specification[ Duration::as_nanos ](duration: &Duration) -> (nanos: u128);

/// Why the board stopped before its budget of cycles was used up.
#[derive(Debug, Clone, Copy, PartialEq, Eq, Structural)]
pub enum Stop {
    /// The processor stands at a `HLT`.
    Processor(Fault),
    /// The next instruction asks for a port that the board does not have.
    Port(PortFault),
}

/// How a call to run the board ended.
#[derive(Debug, Clone, Copy, PartialEq, Eq, Structural)]
pub enum Outcome {
    /// The time that passed is covered by the time that the board ran ahead.
    /// Nothing changed.
    Waiting,
    /// The board ran for `cycles` cycles and used up its budget.
    Ran { cycles: u64 },
    /// The board ran for `cycles` cycles and stopped short of its budget.
    Stopped { cycles: u64, cause: Stop },
}

impl Outcome {
    /// The cycles that the board ran for.
    pub open spec fn cycles(self) -> int {
        match self {
            Outcome::Waiting => 0,
            Outcome::Ran { cycles } => cycles as int,
            Outcome::Stopped { cycles, .. } => cycles as int,
        }
    }
}

/// The board as a mathematical value.
pub struct Cabinet {
    pub cpu: State,
    pub ports: PortState,
    /// The cycles to go until the next interrupt, counted from the start of the
    /// coming run. Negative when the interrupt is overdue.
    pub next_interrupt: int,
    /// The nanoseconds that the board ran ahead of the clock.
    pub overnanos: int,
    /// Which of the two interrupts fired last.
    pub interrupt_num: bool,
    /// The reading of the clock at the last run: the point from which the time that
    /// passed is taken.
    pub baseline: Instant,
}

impl Cabinet {
    /// The counters of the pacing are in their ranges and the processor is over a
    /// full address space.
    pub open spec fn wf(self) -> bool {
        &&& self.cpu.wf()
        &&& -OVERRUN_CYCLES <= self.next_interrupt <= INTERRUPT_CYCLES
        &&& 0 <= self.overnanos <= OVERRUN_CYCLES * NANOS_PER_CYCLE + NANOS_PER_CYCLE - 1
    }

    /// A board that was just switched on.
    pub open spec fn is_initial(self) -> bool {
        &&& self.cpu.is_reset()
        &&& self.ports == PortState::initial()
        &&& self.next_interrupt == 0
        &&& self.overnanos == 0
        &&& !self.interrupt_num
    }

    /// What keeps the board from executing its next instruction, if anything does: a
    /// `HLT`, or an `IN` or `OUT` that names a port that the board does not have.
    pub open spec fn fault(self) -> Option<Stop> {
        match self.cpu.fault() {
            Some(fault) => Some(Stop::Processor(fault)),
            None => match self.cpu.port_request() {
                PortRequest::Idle => None,
                PortRequest::Input { port } => if PortState::reads(port) {
                    None
                } else {
                    Some(Stop::Port(PortFault::Input { port }))
                },
                PortRequest::Output { port, .. } => if PortState::writes(port) {
                    None
                } else {
                    Some(Stop::Port(PortFault::Output { port }))
                },
            },
        }
    }

    /// The cycles that the instruction at the program counter costs.
    pub open spec fn cycles(self) -> int {
        Opcode::cycles_of(self.cpu.opcode()) as int
    }

    /// The board after the instruction at the program counter, with its port traffic.
    pub open spec fn stepped(self) -> Cabinet {
        match self.cpu.port_request() {
            PortRequest::Idle => Cabinet { cpu: self.cpu.step(0), ..self },
            PortRequest::Input { port } => Cabinet {
                cpu: self.cpu.step(self.ports.port_value(port)),
                ..self
            },
            PortRequest::Output { port, byte } => Cabinet {
                cpu: self.cpu.step(0),
                ports: self.ports.after_output(port, byte),
                ..self
            },
        }
    }

    /// The board after an interrupt came due. The two interrupts take turns: the
    /// first calls vector 8, the second vector 16. The processor only takes the
    /// interrupt if it has interrupts switched on; the turn passes either way, and
    /// the next interrupt is due `INTERRUPT_CYCLES` later.
    pub open spec fn interrupted(self) -> Cabinet {
        let code: u8 = if self.interrupt_num {
            16
        } else {
            8
        };
        Cabinet {
            cpu: if self.cpu.int_enable {
                self.cpu.interrupt(code)
            } else {
                self.cpu
            },
            interrupt_num: !self.interrupt_num,
            next_interrupt: self.next_interrupt + INTERRUPT_CYCLES,
            ..self
        }
    }

    /// Whether an interrupt is to fire now: it is due within the budget of `needed`
    /// cycles, and the `passed` cycles have reached it.
    pub open spec fn interrupt_due(self, passed: int, needed: int) -> bool {
        self.next_interrupt < needed && self.next_interrupt <= passed
    }

    /// The board, and the count of cycles, after a run that started with `passed`
    /// cycles on the count and a budget of `needed`. Instructions are executed one
    /// after the other until the count has reached the budget, or until the board
    /// cannot go on; whenever the count has reached the next interrupt, and that
    /// interrupt is due within the budget, the interrupt fires first.
    pub open spec fn run(self, passed: int, needed: int) -> (Cabinet, int)
        decreases
            (if self.next_interrupt < needed {
                needed - self.next_interrupt
            } else {
                0
            }),
            (if passed < needed {
                needed - passed
            } else {
                0
            }),
    {
        if self.interrupt_due(passed, needed) {
            self.interrupted().run(passed, needed)
        } else if passed < needed && self.fault() is None {
            proof {
                Opcode::lemma_cycles_positive(self.cpu.opcode());
            }
            self.stepped().run(passed + self.cycles(), needed)
        } else {
            (self, passed)
        }
    }

    /// The nanoseconds of work that `elapsed` nanoseconds on the clock ask for: what
    /// the board did not run ahead already, and never more than one second.
    pub open spec fn nanos_needed(self, elapsed: u64) -> int {
        if elapsed - self.overnanos > NANOS_PER_SEC {
            NANOS_PER_SEC as int
        } else {
            elapsed - self.overnanos
        }
    }

    /// The budget of cycles for `elapsed` nanoseconds on the clock: the nanoseconds of
    /// work at the clock rate, rounded up to whole cycles.
    pub open spec fn cycles_needed(self, elapsed: u64) -> int {
        (self.nanos_needed(elapsed) + NANOS_PER_CYCLE - 1) / (NANOS_PER_CYCLE as int)
    }

    /// The board after `elapsed` nanoseconds passed on the clock. If the board ran
    /// ahead by as much, nothing happens. Else it runs for its budget of cycles;
    /// then the next interrupt is counted from the end of the run, and what the run
    /// took more than the nanoseconds asked for is what the board now runs ahead.
    pub open spec fn advance(self, elapsed: u64) -> Cabinet {
        if elapsed <= self.overnanos {
            self
        } else {
            let (after, passed) = self.run(0, self.cycles_needed(elapsed));
            let spent: int = passed * NANOS_PER_CYCLE;
            Cabinet {
                next_interrupt: after.next_interrupt - passed,
                overnanos: if spent >= self.nanos_needed(elapsed) {
                    spent - self.nanos_needed(elapsed)
                } else {
                    0
                },
                ..after
            }
        }
    }

    /// The board after a tick in which the clock read `now`, `elapsed` nanoseconds
    /// after the baseline: the board after that time, and `now` for the new baseline
    /// unless the board was waiting.
    pub open spec fn ticked(self, now: Instant, elapsed: u64) -> Cabinet {
        Cabinet {
            baseline: if elapsed <= self.overnanos {
                self.baseline
            } else {
                now
            },
            ..self.advance(elapsed)
        }
    }

    /// How a run for `elapsed` nanoseconds on the clock ends.
    pub open spec fn outcome(self, elapsed: u64) -> Outcome {
        if elapsed <= self.overnanos {
            Outcome::Waiting
        } else {
            let (after, passed) = self.run(0, self.cycles_needed(elapsed));
            if passed >= self.cycles_needed(elapsed) {
                Outcome::Ran { cycles: passed as u64 }
            } else {
                Outcome::Stopped { cycles: passed as u64, cause: after.fault().unwrap() }
            }
        }
    }
}

impl Ram {
    /// Whether part `index` of a program fits at its place.
    pub open spec fn part_fits(parts: [&[u8]; 4], index: int) -> bool {
        FILE_POSITIONS[index] + parts[index]@.len() <= 0x10000
    }

    /// The number of the first part that does not fit at its place, or 4 if all four
    /// parts fit.
    pub open spec fn first_misfit(parts: [&[u8]; 4]) -> int {
        if !Self::part_fits(parts, 0) {
            0
        } else if !Self::part_fits(parts, 1) {
            1
        } else if !Self::part_fits(parts, 2) {
            2
        } else if !Self::part_fits(parts, 3) {
            3
        } else {
            4
        }
    }

    /// The address space after the first `count` parts were loaded in order, each at
    /// its place.
    pub open spec fn load_parts(self, parts: [&[u8]; 4], count: int) -> Ram
        decreases count,
    {
        if count <= 0 {
            self
        } else {
            self.load_parts(parts, count - 1).load(parts[count - 1]@, FILE_POSITIONS[count - 1])
        }
    }
}

impl Cabinet {
    /// The board with the next interrupt counted from a point `shift` cycles earlier,
    /// and with another figure for what it runs ahead.
    pub open spec fn rebased(self, shift: int, overnanos: int) -> Cabinet {
        Cabinet { next_interrupt: self.next_interrupt + shift, overnanos, ..self }
    }

    /// A run in two legs is the run in one: stopping at a first budget and going on
    /// to a second, larger one ends where a run for the second budget ends.
    pub proof fn lemma_run_composes(self, passed: int, first: int, second: int)
        requires
            first <= second,
        ensures
            self.run(passed, first).0.run(self.run(passed, first).1, second) == self.run(
                passed,
                second,
            ),
        decreases
            (if self.next_interrupt < first {
                first - self.next_interrupt
            } else {
                0
            }),
            (if passed < first {
                first - passed
            } else {
                0
            }),
    {
        if self.interrupt_due(passed, first) {
            self.interrupted().lemma_run_composes(passed, first, second);
        } else if passed < first && self.fault() is None {
            Opcode::lemma_cycles_positive(self.cpu.opcode());
            self.stepped().lemma_run_composes(passed + self.cycles(), first, second);
        }
    }

    /// A run does not depend on where the cycles are counted from, nor on what the
    /// board runs ahead: with the count, the budget and the next interrupt all moved
    /// by `shift`, the same instructions and interrupts follow.
    pub proof fn lemma_run_rebased(self, passed: int, needed: int, shift: int, overnanos: int)
        ensures
            self.rebased(shift, overnanos).run(passed + shift, needed + shift) == (
                self.run(passed, needed).0.rebased(shift, overnanos),
                self.run(passed, needed).1 + shift,
            ),
        decreases
            (if self.next_interrupt < needed {
                needed - self.next_interrupt
            } else {
                0
            }),
            (if passed < needed {
                needed - passed
            } else {
                0
            }),
    {
        let moved: Cabinet = self.rebased(shift, overnanos);
        if self.interrupt_due(passed, needed) {
            assert(moved.interrupted() == self.interrupted().rebased(shift, overnanos));
            self.interrupted().lemma_run_rebased(passed, needed, shift, overnanos);
        } else if passed < needed && self.fault() is None {
            Opcode::lemma_cycles_positive(self.cpu.opcode());
            assert(moved.stepped() == self.stepped().rebased(shift, overnanos));
            self.stepped().lemma_run_rebased(passed + self.cycles(), needed, shift, overnanos);
        }
    }

    /// A run keeps what the board runs ahead, which only `advance` settles, and it
    /// ends with the count at the budget or up to `OVERRUN_CYCLES` above it, unless
    /// the count was further on from the start.
    pub proof fn lemma_run_bounds(self, passed: int, needed: int)
        ensures
            self.run(passed, needed).0.overnanos == self.overnanos,
            passed <= self.run(passed, needed).1,
            self.run(passed, needed).1 <= if passed < needed {
                needed + OVERRUN_CYCLES
            } else {
                passed
            },
        decreases
            (if self.next_interrupt < needed {
                needed - self.next_interrupt
            } else {
                0
            }),
            (if passed < needed {
                needed - passed
            } else {
                0
            }),
    {
        if self.interrupt_due(passed, needed) {
            self.interrupted().lemma_run_bounds(passed, needed);
        } else if passed < needed && self.fault() is None {
            Opcode::lemma_cycles_bounds(self.cpu.opcode());
            self.stepped().lemma_run_bounds(passed + self.cycles(), needed);
        }
    }

    /// How many interrupts fire in a run.
    pub open spec fn interrupts(self, passed: int, needed: int) -> int
        decreases
            (if self.next_interrupt < needed {
                needed - self.next_interrupt
            } else {
                0
            }),
            (if passed < needed {
                needed - passed
            } else {
                0
            }),
    {
        if self.interrupt_due(passed, needed) {
            1 + self.interrupted().interrupts(passed, needed)
        } else if passed < needed && self.fault() is None {
            proof {
                Opcode::lemma_cycles_positive(self.cpu.opcode());
            }
            self.stepped().interrupts(passed + self.cycles(), needed)
        } else {
            0
        }
    }

    /// How many interrupts are due within a budget of `needed` cycles: one for each
    /// point of the series `next_interrupt`, `next_interrupt + INTERRUPT_CYCLES`, ...
    /// that lies below the budget.
    pub open spec fn interrupts_due(self, needed: int) -> int {
        if self.next_interrupt < needed {
            (needed - self.next_interrupt - 1) / (INTERRUPT_CYCLES as int) + 1
        } else {
            0
        }
    }

    /// The interrupts keep their period whatever the program does: a run that uses
    /// up its budget fires exactly the interrupts that are due within the budget, one
    /// every `INTERRUPT_CYCLES` cycles, and each of them passes the turn on.
    pub proof fn lemma_interrupts_on_schedule(self, passed: int, needed: int)
        requires
            self.run(passed, needed).1 >= needed,
        ensures
            self.interrupts(passed, needed) == self.interrupts_due(needed),
            self.run(passed, needed).0.next_interrupt == self.next_interrupt + self.interrupts(
                passed,
                needed,
            ) * INTERRUPT_CYCLES,
            self.run(passed, needed).0.next_interrupt >= needed,
            self.run(passed, needed).0.interrupt_num == (self.interrupt_num != (self.interrupts(
                passed,
                needed,
            ) % 2 == 1)),
        decreases
            (if self.next_interrupt < needed {
                needed - self.next_interrupt
            } else {
                0
            }),
            (if passed < needed {
                needed - passed
            } else {
                0
            }),
    {
        if self.interrupt_due(passed, needed) {
            self.interrupted().lemma_interrupts_on_schedule(passed, needed);
        } else if passed < needed && self.fault() is None {
            Opcode::lemma_cycles_positive(self.cpu.opcode());
            self.stepped().lemma_interrupts_on_schedule(passed + self.cycles(), needed);
        }
    }

    /// A run never asks for more than one second of work: the budget is at most
    /// what the clock of the processor ticks in a second.
    pub proof fn lemma_budget_capped(self, elapsed: u64)
        requires
            self.wf(),
            self.overnanos < elapsed,
        ensures
            0 < self.cycles_needed(elapsed) <= HERTZ,
            self.outcome(elapsed).cycles() <= HERTZ + OVERRUN_CYCLES,
    {
        self.lemma_run_bounds(0, self.cycles_needed(elapsed));
    }

    /// More time on the clock never means less work: the cycles of a run grow with
    /// the time that passed.
    pub proof fn lemma_progress_monotone(self, shorter: u64, longer: u64)
        requires
            self.wf(),
            shorter <= longer,
        ensures
            self.outcome(shorter).cycles() <= self.outcome(longer).cycles(),
    {
        if shorter > self.overnanos {
            let first: int = self.cycles_needed(shorter);
            let second: int = self.cycles_needed(longer);
            self.lemma_run_composes(0, first, second);
            self.lemma_run_bounds(0, first);
            self.lemma_run_bounds(0, second);
            self.run(0, first).0.lemma_run_bounds(self.run(0, first).1, second);
        } else if longer > self.overnanos {
            self.lemma_run_bounds(0, self.cycles_needed(longer));
        }
    }

    /// The interrupts of a run in two legs are those of the run in one: none is lost
    /// and none is added where a run stops at a first budget and goes on to a second.
    pub proof fn lemma_interrupts_compose(self, passed: int, first: int, second: int)
        requires
            first <= second,
        ensures
            self.interrupts(passed, first) + self.run(passed, first).0.interrupts(
                self.run(passed, first).1,
                second,
            ) == self.interrupts(passed, second),
        decreases
            (if self.next_interrupt < first {
                first - self.next_interrupt
            } else {
                0
            }),
            (if passed < first {
                first - passed
            } else {
                0
            }),
    {
        if self.interrupt_due(passed, first) {
            self.interrupted().lemma_interrupts_compose(passed, first, second);
        } else if passed < first && self.fault() is None {
            Opcode::lemma_cycles_positive(self.cpu.opcode());
            self.stepped().lemma_interrupts_compose(passed + self.cycles(), first, second);
        }
    }

    /// The interrupts of a run do not depend on where the cycles are counted from.
    pub proof fn lemma_interrupts_rebased(
        self,
        passed: int,
        needed: int,
        shift: int,
        overnanos: int,
    )
        ensures
            self.rebased(shift, overnanos).interrupts(passed + shift, needed + shift)
                == self.interrupts(passed, needed),
        decreases
            (if self.next_interrupt < needed {
                needed - self.next_interrupt
            } else {
                0
            }),
            (if passed < needed {
                needed - passed
            } else {
                0
            }),
    {
        let moved: Cabinet = self.rebased(shift, overnanos);
        if self.interrupt_due(passed, needed) {
            assert(moved.interrupted() == self.interrupted().rebased(shift, overnanos));
            self.interrupted().lemma_interrupts_rebased(passed, needed, shift, overnanos);
        } else if passed < needed && self.fault() is None {
            Opcode::lemma_cycles_positive(self.cpu.opcode());
            assert(moved.stepped() == self.stepped().rebased(shift, overnanos));
            self.stepped().lemma_interrupts_rebased(
                passed + self.cycles(),
                needed,
                shift,
                overnanos,
            );
        }
    }

    /// How many interrupts fire in the run for `elapsed` nanoseconds on the clock.
    pub open spec fn interrupts_in(self, elapsed: u64) -> int {
        if elapsed <= self.overnanos {
            0
        } else {
            self.interrupts(0, self.cycles_needed(elapsed))
        }
    }

    /// The pacing does not drift, and the interrupts keep their period however the
    /// time is cut into runs: two runs, for `first` and then for `second` nanoseconds
    /// on the clock, leave the board exactly where one run for the sum of the two
    /// leaves it, with the same instructions executed and the same interrupts fired
    /// at the same counts of cycles; the cycles and the interrupts of the two runs add
    /// up to those of the one, and so it is for two ticks and one, whatever the clock
    /// read at the first. This holds where the first run used up its budget, the
    /// second has something to do, and no run is cut to one second.
    pub proof fn lemma_advance_splits(self, first: u64, second: u64)
        requires
            self.wf(),
            self.overnanos < first,
            self.outcome(first) is Ran,
            self.advance(first).overnanos < second,
            first + second - self.overnanos <= NANOS_PER_SEC,
        ensures
            self.advance(first).advance(second) == self.advance((first + second) as u64),
            self.advance(first).outcome(second) is Ran <==> self.outcome((first + second) as u64)
                is Ran,
            self.outcome(first).cycles() + self.advance(first).outcome(second).cycles()
                == self.outcome((first + second) as u64).cycles(),
            self.interrupts_in(first) + self.advance(first).interrupts_in(second)
                == self.interrupts_in((first + second) as u64),
            forall|now: Instant, then: Instant|
                #[trigger] self.ticked(now, first).ticked(then, second) == self.ticked(
                    then,
                    (first + second) as u64,
                ),
    {
        let total: u64 = (first + second) as u64;
        let budget_1: int = self.cycles_needed(first);
        let budget: int = self.cycles_needed(total);
        let (after_1, passed_1) = self.run(0, budget_1);
        let (after, passed) = self.run(0, budget);
        let between: Cabinet = self.advance(first);
        let budget_2: int = between.cycles_needed(second);
        self.lemma_run_bounds(0, budget_1);
        assert(between == after_1.rebased(-passed_1, between.overnanos));
        assert(budget_2 == budget - passed_1);
        assert(budget_1 <= budget);
        self.lemma_run_composes(0, budget_1, budget);
        after_1.lemma_run_rebased(passed_1, budget, -passed_1, between.overnanos);
        assert(between.run(0, budget_2) == (
            after.rebased(-passed_1, between.overnanos),
            passed - passed_1,
        ));
        after_1.lemma_run_bounds(passed_1, budget);
        self.lemma_run_bounds(0, budget);
        self.lemma_interrupts_compose(0, budget_1, budget);
        after_1.lemma_interrupts_rebased(passed_1, budget, -passed_1, between.overnanos);
        assert forall|now: Instant, then: Instant|
            #[trigger] self.ticked(now, first).ticked(then, second) == self.ticked(
                then,
                total,
            ) by {
            let ticked: Cabinet = self.ticked(now, first);
            assert(ticked == Cabinet { baseline: now, ..between });
            Self::lemma_baseline_apart(between, now, second);
        }
    }

    /// A run does not look at the baseline, and leaves it as it is.
    pub proof fn lemma_baseline_apart(board: Cabinet, baseline: Instant, elapsed: u64)
        ensures
            (Cabinet { baseline, ..board }).advance(elapsed) == (Cabinet {
                baseline,
                ..board.advance(elapsed)
            }),
            (Cabinet { baseline, ..board }).outcome(elapsed) == board.outcome(elapsed),
    {
        if elapsed > board.overnanos {
            board.lemma_run_baseline(0, board.cycles_needed(elapsed), baseline);
        }
    }

    /// A run with another baseline is the same run, with that baseline.
    pub proof fn lemma_run_baseline(self, passed: int, needed: int, baseline: Instant)
        ensures
            (Cabinet { baseline, ..self }).run(passed, needed) == (
                Cabinet { baseline, ..self.run(passed, needed).0 },
                self.run(passed, needed).1,
            ),
        decreases
            (if self.next_interrupt < needed {
                needed - self.next_interrupt
            } else {
                0
            }),
            (if passed < needed {
                needed - passed
            } else {
                0
            }),
    {
        let other: Cabinet = Cabinet { baseline, ..self };
        if self.interrupt_due(passed, needed) {
            assert(other.interrupted() == Cabinet { baseline, ..self.interrupted() });
            self.interrupted().lemma_run_baseline(passed, needed, baseline);
        } else if passed < needed && self.fault() is None {
            Opcode::lemma_cycles_positive(self.cpu.opcode());
            assert(other.stepped() == Cabinet { baseline, ..self.stepped() });
            self.stepped().lemma_run_baseline(passed + self.cycles(), needed, baseline);
        }
    }
}

/// The counters of the pacing.
pub struct Pacing {
    interrupt_num: bool,
    next_interrupt: i64,
    overnanos: u64,
}

impl Pacing {
    /// The counters stay in their ranges.
    #[verifier::type_invariant]
    spec fn in_range(&self) -> bool {
        &&& -OVERRUN_CYCLES <= self.next_interrupt <= INTERRUPT_CYCLES
        &&& self.overnanos <= OVERRUN_CYCLES * NANOS_PER_CYCLE + NANOS_PER_CYCLE - 1
    }
}

/// The Space Invaders board.
pub struct SpaceInvaders {
    cpu: Cpu,
    ports: Ports,
    pacing: Pacing,
    previous: Instant,
}

impl View for SpaceInvaders {
    type V = Cabinet;

    closed spec fn view(&self) -> Cabinet {
        Cabinet {
            cpu: self.cpu@,
            ports: self.ports@,
            next_interrupt: self.pacing.next_interrupt as int,
            overnanos: self.pacing.overnanos as int,
            interrupt_num: self.pacing.interrupt_num,
            baseline: self.previous,
        }
    }
}

impl SpaceInvaders {
    /// A board that was just switched on, with no program in its memory yet. The
    /// clock starts now.
    pub fn new() -> (board: SpaceInvaders)
        ensures
            board@.is_initial(),
            board@.wf(),
    {
        SpaceInvaders {
            cpu: Cpu::new(),
            ports: Ports::new(),
            pacing: Pacing { interrupt_num: false, next_interrupt: 0, overnanos: 0 },
            previous: Instant::now(),
        }
    }

    /// Copies a part of the program into memory from `position` on. A part that would
    /// run past the last address is refused, and the board is left as it was.
    pub fn load_into_rom(&mut self, block: &[u8], position: u16) -> (loaded: Result<
        (),
        LoadError,
    >)
        ensures
            match loaded {
                Ok(()) => position + block@.len() <= 0x10000 && final(self)@ == (Cabinet {
                    cpu: State {
                        memory: old(self)@.cpu.memory.load(block@, position),
                        ..old(self)@.cpu
                    },
                    ..old(self)@
                }),
                Err(error) => position + block@.len() > 0x10000 && error == (LoadError {
                    position,
                    length: block.len(),
                }) && final(self)@ == old(self)@,
            },
    {
        self.cpu.load_into_rom(block, position)
    }

    /// Copies the four parts of the program into memory, each at its place in
    /// `FILE_POSITIONS`, in that order. The first part that does not fit is refused and
    /// ends the loading; the parts before it stay loaded.
    pub fn load_program(&mut self, parts: [&[u8]; 4]) -> (loaded: Result<(), LoadError>)
        ensures
            final(self)@ == (Cabinet {
                cpu: State {
                    memory: old(self)@.cpu.memory.load_parts(parts, Ram::first_misfit(parts)),
                    ..old(self)@.cpu
                },
                ..old(self)@
            }),
            match loaded {
                Ok(()) => Ram::first_misfit(parts) == 4,
                Err(error) => Ram::first_misfit(parts) < 4 && error == (LoadError {
                    position: FILE_POSITIONS[Ram::first_misfit(parts)],
                    length: parts[Ram::first_misfit(parts)].len(),
                }),
            },
    {
        let mut i: usize = 0;
        while i < 4
            invariant
                0 <= i <= Ram::first_misfit(parts),
                self@ == (Cabinet {
                    cpu: State {
                        memory: old(self)@.cpu.memory.load_parts(parts, i as int),
                        ..old(self)@.cpu
                    },
                    ..old(self)@
                }),
            decreases 4 - i,
        {
            let loaded = self.load_into_rom(parts[i], FILE_POSITIONS[i]);
            if let Err(error) = loaded {
                return Err(error);
            }
            i += 1;
        }
        Ok(())
    }

    /// The video memory: one bit for each pixel.
    pub fn framebuffer(&self) -> (window: &[u8])
        ensures
            window@ == self@.cpu.memory.cells.subrange(
                FRAMEBUFFER_START as int,
                FRAMEBUFFER_END as int,
            ),
    {
        &self.cpu.memory[FRAMEBUFFER_START..FRAMEBUFFER_END]
    }

    /// The processor of the board.
    pub fn cpu(&self) -> (cpu: &Cpu)
        ensures
            cpu@ == self@.cpu,
    {
        &self.cpu
    }

    /// The devices behind the ports.
    pub fn ports(&self) -> (ports: &Ports)
        ensures
            ports@ == self@.ports,
    {
        &self.ports
    }

    /// The cycles to go until the next interrupt, counted from the end of the last
    /// run; negative when the interrupt is overdue.
    pub fn next_interrupt(&self) -> (cycles: i64)
        ensures
            cycles == self@.next_interrupt,
            self@.wf(),
    {
        proof {
            use_type_invariant(&self.pacing);
        }
        self.pacing.next_interrupt
    }

    /// The nanoseconds that the board ran ahead of the clock in its last run.
    pub fn overnanos(&self) -> (nanos: u64)
        ensures
            nanos == self@.overnanos,
            self@.wf(),
    {
        proof {
            use_type_invariant(&self.pacing);
        }
        self.pacing.overnanos
    }

    /// Which of the two interrupts fired last: `true` after the first of a frame.
    pub fn interrupt_num(&self) -> (first: bool)
        ensures
            first == self@.interrupt_num,
    {
        self.pacing.interrupt_num
    }

    /// Hands out the sound requests that came in since the last call, oldest first.
    pub fn take_cues(&mut self) -> (cues: Vec<Cue>)
        ensures
            cues@ == old(self)@.ports.cues,
            final(self)@ == (Cabinet {
                ports: PortState { cues: Seq::empty(), ..old(self)@.ports },
                ..old(self)@
            }),
    {
        self.ports.take_cues()
    }

    /// A key went down or came up: the bit of its control in the first port follows.
    pub fn handle_event(&mut self, event: KeyEvent)
        ensures
            final(self)@ == (Cabinet {
                ports: old(self)@.ports.after_event(event),
                ..old(self)@
            }),
    {
        self.ports.handle_event(event);
    }

    /// What keeps the board from executing its next instruction, if anything does: a
    /// `HLT`, or an `IN` or `OUT` that names a port that the board does not have.
    pub fn fault(&self) -> (fault: Option<Stop>)
        ensures
            fault == self@.fault(),
    {
        match self.cpu.fault() {
            Some(fault) => Some(Stop::Processor(fault)),
            None => match self.cpu.port_request() {
                PortRequest::Idle => None,
                PortRequest::Input { port } => if Ports::reads(port) {
                    None
                } else {
                    Some(Stop::Port(PortFault::Input { port }))
                },
                PortRequest::Output { port, .. } => if Ports::writes(port) {
                    None
                } else {
                    Some(Stop::Port(PortFault::Output { port }))
                },
            },
        }
    }

    /// The reading of the clock at the last run.
    pub fn baseline(&self) -> (baseline: Instant)
        ensures
            baseline == self@.baseline,
    {
        self.previous
    }

    /// Executes the instruction at the program counter with its port traffic.
    fn step(&mut self) -> (cycles: u8)
        requires
            old(self)@.fault() is None,
        ensures
            final(self)@ == old(self)@.stepped(),
            cycles == old(self)@.cycles(),
            3 <= cycles <= 18,
    {
        let input: u8 = match self.cpu.port_request() {
            PortRequest::Idle => 0,
            PortRequest::Input { port } => self.ports.input(port),
            PortRequest::Output { port, byte } => {
                self.ports.output(port, byte);
                0
            },
        };
        self.cpu.step(input)
    }

    /// An interrupt came due, the first of a frame if `first` is set: the processor
    /// is interrupted if it has interrupts switched on.
    fn try_interrupt(&mut self, first: bool)
        ensures
            final(self)@ == (Cabinet {
                cpu: if old(self)@.cpu.int_enable {
                    old(self)@.cpu.interrupt(
                        if first {
                            8
                        } else {
                            16
                        },
                    )
                } else {
                    old(self)@.cpu
                },
                ..old(self)@
            }),
    {
        if !self.cpu.int_enable {
            return ;
        }
        if first {
            self.cpu.interrupt(8);
        } else {
            self.cpu.interrupt(16);
        }
    }

    /// Runs the board for the `elapsed` nanoseconds that passed on the clock. The
    /// baseline stays as it is: `tick` moves it.
    ///
    /// When the board ran for its budget, the cycles of the run are the budget or up
    /// to `OVERRUN_CYCLES` more, and they account for the time exactly: at
    /// `NANOS_PER_CYCLE` each they are the nanoseconds asked for plus what the board
    /// now runs ahead.
    pub fn advance(&mut self, elapsed: u64) -> (outcome: Outcome)
        ensures
            final(self)@ == old(self)@.advance(elapsed),
            outcome == old(self)@.outcome(elapsed),
            outcome is Waiting <==> elapsed <= old(self)@.overnanos,
            old(self)@.wf(),
            final(self)@.wf(),
            outcome matches Outcome::Ran { cycles } ==> {
                &&& old(self)@.cycles_needed(elapsed) <= cycles <= old(self)@.cycles_needed(elapsed)
                    + OVERRUN_CYCLES
                &&& cycles * NANOS_PER_CYCLE == old(self)@.nanos_needed(elapsed)
                    + final(self)@.overnanos
            },
            outcome matches Outcome::Stopped { cycles, cause } ==> {
                &&& cycles < old(self)@.cycles_needed(elapsed)
                &&& final(self)@.fault() == Some(cause)
            },
    {
        proof {
            use_type_invariant(&self.pacing);
        }
        if elapsed <= self.pacing.overnanos {
            return Outcome::Waiting;
        }
        let owed: u64 = elapsed - self.pacing.overnanos;
        let nanos_needed: u64 = if owed > NANOS_PER_SEC {
            NANOS_PER_SEC
        } else {
            owed
        };
        let cycles_needed: u64 = (nanos_needed + NANOS_PER_CYCLE - 1) / NANOS_PER_CYCLE;
        let mut cycles_passed: u64 = 0;
        let mut next_interrupt: i64 = self.pacing.next_interrupt;
        let mut interrupt_num: bool = self.pacing.interrupt_num;
        let mut stopped: Option<Stop> = None;
        loop
            invariant_except_break
                stopped is None,
            invariant
                old(self)@.run(0, cycles_needed as int) == (Cabinet {
                    next_interrupt: next_interrupt as int,
                    interrupt_num,
                    ..self@
                }).run(cycles_passed as int, cycles_needed as int),
                0 < cycles_needed <= HERTZ,
                cycles_passed <= cycles_needed + OVERRUN_CYCLES,
                cycles_passed - OVERRUN_CYCLES <= next_interrupt <= cycles_passed
                    + INTERRUPT_CYCLES,
                self@.overnanos == old(self)@.overnanos,
            ensures
                old(self)@.run(0, cycles_needed as int) == (
                    Cabinet { next_interrupt: next_interrupt as int, interrupt_num, ..self@ },
                    cycles_passed as int,
                ),
                stopped is None ==> cycles_passed >= cycles_needed,
                stopped matches Some(cause) ==> cycles_passed < cycles_needed && self@.fault()
                    == Some(cause),
                cycles_passed <= cycles_needed + OVERRUN_CYCLES,
                cycles_passed - OVERRUN_CYCLES <= next_interrupt <= cycles_passed
                    + INTERRUPT_CYCLES,
                self@.overnanos == old(self)@.overnanos,
            decreases
                (if next_interrupt < cycles_needed {
                    cycles_needed - next_interrupt
                } else {
                    0
                }),
                (if cycles_passed < cycles_needed {
                    cycles_needed - cycles_passed
                } else {
                    0
                }),
        {
            if next_interrupt < cycles_needed as i64 && next_interrupt <= cycles_passed as i64 {
                interrupt_num = !interrupt_num;
                next_interrupt = next_interrupt + INTERRUPT_CYCLES;
                self.try_interrupt(interrupt_num);
            } else if cycles_passed >= cycles_needed {
                break ;
            } else {
                stopped = self.fault();
                if stopped.is_some() {
                    break ;
                }
                let cycles: u8 = self.step();
                cycles_passed = cycles_passed + cycles as u64;
            }
        }
        let spent: u64 = cycles_passed * NANOS_PER_CYCLE;
        self.pacing = Pacing {
            interrupt_num,
            next_interrupt: next_interrupt - cycles_passed as i64,
            overnanos: if spent >= nanos_needed {
                spent - nanos_needed
            } else {
                0
            },
        };
        match stopped {
            None => Outcome::Ran { cycles: cycles_passed },
            Some(cause) => Outcome::Stopped { cycles: cycles_passed, cause },
        }
    }

    /// One tick of the board, with the clock already read: `now` is the reading and
    /// `elapsed` the nanoseconds from the baseline to it. The board runs as `advance`
    /// says. Unless it was waiting, `now` is the baseline from here on; a board that
    /// waits keeps its baseline, so that the time it waited counts at the next tick.
    pub fn tick(&mut self, now: Instant, elapsed: u64) -> (outcome: Outcome)
        ensures
            final(self)@ == old(self)@.ticked(now, elapsed),
            final(self)@.baseline == if outcome is Waiting {
                old(self)@.baseline
            } else {
                now
            },
            outcome == old(self)@.outcome(elapsed),
            outcome is Waiting <==> elapsed <= old(self)@.overnanos,
            old(self)@.wf(),
            final(self)@.wf(),
            outcome matches Outcome::Ran { cycles } ==> {
                &&& old(self)@.cycles_needed(elapsed) <= cycles <= old(self)@.cycles_needed(elapsed)
                    + OVERRUN_CYCLES
                &&& cycles * NANOS_PER_CYCLE == old(self)@.nanos_needed(elapsed)
                    + final(self)@.overnanos
            },
            outcome matches Outcome::Stopped { cycles, cause } ==> {
                &&& cycles < old(self)@.cycles_needed(elapsed)
                &&& final(self)@.fault() == Some(cause)
            },
    {
        let outcome: Outcome = self.advance(elapsed);
        match outcome {
            Outcome::Waiting => {},
            _ => {
                self.previous = now;
            },
        }
        outcome
    }

    /// Runs the board for the time that passed on the clock since the last run. The
    /// clock is read once, and `tick` does the rest with the reading: for some
    /// reading and some time from the baseline to it, the board is what `tick` makes
    /// of them. A board that waits keeps its baseline.
    pub fn emulate(&mut self) -> (outcome: Outcome)
        ensures
            final(self)@.wf(),
            exists|now: Instant, elapsed: u64|
                final(self)@ == old(self)@.ticked(now, elapsed) && outcome == old(
                    self,
                )@.outcome(elapsed),
            outcome is Waiting ==> final(self)@ == old(self)@,
            outcome is Waiting ==> final(self)@.baseline == old(self)@.baseline,
    {
        let now: Instant = Instant::now();
        let nanos: u128 = now.saturating_duration_since(self.previous).as_nanos();
        let elapsed: u64 = if nanos > u64::MAX as u128 {
            u64::MAX
        } else {
            nanos as u64
        };
        self.tick(now, elapsed)
    }
}

impl Machine for SpaceInvaders {
    open spec fn reads(&self, port: u8) -> bool {
        PortState::reads(port)
    }

    open spec fn writes(&self, port: u8) -> bool {
        PortState::writes(port)
    }

    /// The byte that a read of `port` gives. Reading changes nothing.
    fn input(&mut self, port: u8) -> (value: u8)
        ensures
            value == old(self)@.ports.port_value(port),
            final(self)@ == old(self)@,
    {
        self.ports.input(port)
    }

    /// Takes `byte` at `port`, as the devices of the board do.
    fn output(&mut self, port: u8, byte: u8)
        ensures
            final(self)@ == (Cabinet {
                ports: old(self)@.ports.after_output(port, byte),
                ..old(self)@
            }),
    {
        self.ports.output(port, byte)
    }
}

} // verus!
