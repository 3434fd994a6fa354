//! The part's microcode as data.
//!
//! A timing row says what an instruction costs; it cannot say where inside
//! that cost the instruction touches the bus. So the sequencer walks a step
//! list instead. Each step is a thing the microcode does that the outside
//! world can see: clocks with the bus free, a word onto or off the stack, the
//! prefetcher stopping, the queue being thrown away. The lists are
//! transcribed from the published microcode.

use vstd::prelude::*;
use super::timing::{Loop, corx_cycles, count_ones16, popcount};

verus! {

/// One step of an instruction's microcode.
#[derive(Clone, Copy, Debug, PartialEq, Eq, Structural)]
pub enum Step {
    /// `n` clocks of microcode with the bus free.
    Spend(u16),
    /// Stop prefetching. Only a `Flush` lifts it.
    Susp,
    /// Throw the queue away and start the reload.
    Flush,
    /// Read one word through the interrupt vector table.
    ReadVectorWord,
    /// Read the instruction's memory operand from within the routine.
    ReadOperand,
    /// Read the segment half of a far pointer.
    ReadPointerSegment,
    /// Put one staged word on the stack.
    Push,
    /// Take one word off the stack.
    Pop,
    /// Read the instruction's I/O port.
    ReadPort,
    /// Write the instruction's I/O port.
    WritePort,
    /// Write the instruction's memory operand back.
    WriteOperand,
    /// Run the instruction body.
    Run,
    /// Point the stream at the words already popped: one for a near
    /// transfer, two for a far one.
    Transfer { far: bool },
}

/// The most steps any one routine takes.
pub const MAX_STEPS: usize = 24;

/// One instruction's microcode, built for the case in hand.
#[derive(Clone, Copy, Debug, PartialEq, Eq)]
pub struct Routine {
    pub steps: [Step; 24],
    pub len: u8,
}

impl View for Routine {
    type V = Seq<Step>;

    open spec fn view(&self) -> Seq<Step> {
        self.steps@.take(self.len as int)
    }
}

/// Every array slot past the routine's length holds `Run`, as a fresh
/// routine's do: two routines with the same steps are then equal as values.
pub open spec fn tail_clear(r: Routine) -> bool {
    forall|i: int| r.len <= i < 24 ==> #[trigger] r.steps@[i] == Step::Run
}

/// `n` clocks as a step list: one `Spend`, or nothing when `n` is zero.
pub open spec fn sp(n: int) -> Seq<Step> {
    if n == 0 {
        Seq::empty()
    } else {
        seq![Step::Spend(n as u16)]
    }
}

/// `s` when `c` holds, nothing otherwise.
pub open spec fn when(c: bool, s: Seq<Step>) -> Seq<Step> {
    if c {
        s
    } else {
        Seq::empty()
    }
}

/// How many times `x` occurs in `s`.
pub open spec fn count_of(s: Seq<Step>, x: Step) -> nat
    decreases s.len(),
{
    if s.len() == 0 {
        0
    } else {
        count_of(s.drop_last(), x) + if s.last() == x { 1nat } else { 0 }
    }
}

/// The clocks the `Spend`s of `s` add up to.
pub open spec fn total_clocks(s: Seq<Step>) -> int
    decreases s.len(),
{
    if s.len() == 0 {
        0
    } else {
        total_clocks(s.drop_last()) + match s.last() {
            Step::Spend(n) => n as int,
            _ => 0,
        }
    }
}

/// No step of `s` spends zero clocks.
pub open spec fn no_zero_spend(s: Seq<Step>) -> bool {
    forall|i: int| 0 <= i < s.len() ==> s[i] != Step::Spend(0)
}

/// Every `Susp` in `s` has a `Flush` somewhere behind it.
pub open spec fn susp_settled(s: Seq<Step>) -> bool {
    forall|i: int|
        0 <= i < s.len() && s[i] == Step::Susp ==> exists|j: int|
            i < j < s.len() && #[trigger] s[j] == Step::Flush
}

/// Every `Transfer` in `s` follows exactly the pops it reads: one for a
/// near transfer, two for a far one.
pub open spec fn transfers_popped(s: Seq<Step>) -> bool {
    forall|i: int|
        #![trigger s[i]]
        0 <= i < s.len() ==> match s[i] {
            Step::Transfer { far } => count_of(s.take(i), Step::Pop) == if far { 2nat } else { 1 },
            _ => true,
        }
}

/// The interrupt routine: `entry` clocks, 0x19d when `first_line`, the two
/// vector words with one clock between, the suspend, then the three pushes
/// with the flush between the second and the third.
pub open spec fn interrupt_steps(entry: u16, first_line: bool) -> Seq<Step> {
    sp(entry as int) + sp(2 + if first_line { 1int } else { 0 }) + seq![Step::ReadVectorWord]
        + sp(1) + seq![Step::ReadVectorWord, Step::Susp] + sp(3) + seq![Step::Run, Step::Push]
        + sp(5) + seq![Step::Push] + sp(3) + seq![Step::Flush] + sp(3) + seq![Step::Push]
}

/// RELJMP after the jump into it: suspend, four clocks, flush, one clock.
pub open spec fn reljmp() -> Seq<Step> {
    seq![Step::Susp] + sp(4) + seq![Step::Flush] + sp(1)
}

/// The routine a multiply, divide or `AAM` runs for its co-routine's count.
pub open spec fn muldiv_steps(muldiv: Option<Loop>) -> Option<Seq<Step>> {
    match muldiv {
        Some(Loop::Completed(c)) => Some(sp(c as int) + seq![Step::Run]),
        Some(Loop::Faulted(c)) => Some(interrupt_steps(c, false)),
        None => None,
    }
}

/// The routine table for opcodes below 0x80.
pub open spec fn steps_below_80(
    opcode: u8,
    modrm: u8,
    branch: bool,
    cl: u8,
    muldiv: Option<Loop>,
) -> Option<Seq<Step>> {
    let reg_form = modrm / 64 == 3;
    let mem = !reg_form;
    let reg = (modrm / 8) % 8;
    let run = seq![Step::Run];
    let wr = seq![Step::WriteOperand];
    if 0x60 <= opcode <= 0x7F {
        Some(sp(1) + run + when(branch, sp(1) + reljmp()))
    } else if opcode < 0x40 && opcode % 8 < 4 {
        let stores = (opcode / 2) % 2 == 0;
        let compares = (opcode / 8) % 8 == 7;
        Some(when(mem, sp(1)) + sp(1) + run + when(mem && stores && !compares, sp(2) + wr))
    } else if opcode < 0x40 && (opcode % 8 == 4 || opcode % 8 == 5) {
        Some(sp(if opcode % 2 == 0 { 1int } else { 0 }) + run)
    } else if 0x50 <= opcode <= 0x57 || opcode == 0x06 || opcode == 0x0E || opcode == 0x16 || opcode == 0x1E || opcode == 0x9C {
        Some(sp(3) + seq![Step::Run, Step::Push])
    } else if 0x58 <= opcode <= 0x5F || opcode == 0x07 || opcode == 0x17 || opcode == 0x1F || opcode == 0x9D {
        Some(seq![Step::Pop, Step::Run])
    } else {
        None
    }
}

/// The routine table for opcodes 0x80 through 0x8B.
pub open spec fn steps_80_to_8b(
    opcode: u8,
    modrm: u8,
    branch: bool,
    cl: u8,
    muldiv: Option<Loop>,
) -> Option<Seq<Step>> {
    let reg_form = modrm / 64 == 3;
    let mem = !reg_form;
    let reg = (modrm / 8) % 8;
    let run = seq![Step::Run];
    let wr = seq![Step::WriteOperand];
    if 0x88 <= opcode <= 0x8B {
        let stores = (opcode / 2) % 2 == 0;
        Some(
            when(mem, sp(if stores { 2int } else { 1 }) + when(stores, sp(2))) + run + when(
                mem && stores,
                wr,
            ),
        )
    } else if opcode == 0x84 || opcode == 0x85 {
        Some(when(mem, sp(1)) + sp(1) + run)
    } else if 0x80 <= opcode <= 0x83 {
        let compares = reg == 7;
        Some(
            sp(if opcode != 0x81 { 1int } else { 0 }) + run + when(
                mem,
                sp(1) + when(!compares, wr),
            ),
        )
    } else if opcode == 0x86 || opcode == 0x87 {
        Some(
            if reg_form {
                sp(2) + run
            } else {
                sp(5) + seq![Step::Run, Step::WriteOperand]
            },
        )
    } else {
        None
    }
}

/// The routine table for opcodes 0x8C through 0xBF.
pub open spec fn steps_8c_to_bf(
    opcode: u8,
    modrm: u8,
    branch: bool,
    cl: u8,
    muldiv: Option<Loop>,
) -> Option<Seq<Step>> {
    let reg_form = modrm / 64 == 3;
    let mem = !reg_form;
    let reg = (modrm / 8) % 8;
    let run = seq![Step::Run];
    let wr = seq![Step::WriteOperand];
    if opcode == 0x8D {
        Some(sp(2) + run)
    } else if opcode == 0x8C || opcode == 0x8E {
        let stores = opcode == 0x8C;
        Some(
            when(mem, sp(if stores { 2int } else { 1 }) + when(stores, sp(1))) + run + when(
                stores && mem,
                wr,
            ),
        )
    } else if opcode == 0xA0 || opcode == 0xA1 {
        Some(run)
    } else if opcode == 0xA2 || opcode == 0xA3 {
        Some(run + sp(1) + wr)
    } else if opcode == 0xA8 || opcode == 0xA9 {
        Some(sp(if opcode == 0xA8 { 1int } else { 0 }) + run)
    } else if opcode == 0x8F {
        Some(when(mem, sp(2)) + sp(1) + seq![Step::Pop, Step::Run] + sp(1) + when(mem, sp(2) + wr))
    } else if 0xB0 <= opcode <= 0xBF {
        Some(sp(if (opcode / 8) % 2 == 0 { 1int } else { 0 }) + run)
    } else if 0x50 <= opcode <= 0x57 || opcode == 0x06 || opcode == 0x0E || opcode == 0x16 || opcode == 0x1E || opcode == 0x9C {
        Some(sp(3) + seq![Step::Run, Step::Push])
    } else if 0x58 <= opcode <= 0x5F || opcode == 0x07 || opcode == 0x17 || opcode == 0x1F || opcode == 0x9D {
        Some(seq![Step::Pop, Step::Run])
    } else if opcode == 0x9A {
        Some(
            run + sp(1) + seq![Step::Susp] + sp(4) + seq![Step::Push] + sp(3) + seq![Step::Flush]
                + sp(3) + seq![Step::Push],
        )
    } else {
        None
    }
}

/// The routine table for opcodes from 0xC0.
pub open spec fn steps_from_c0(
    opcode: u8,
    modrm: u8,
    branch: bool,
    cl: u8,
    muldiv: Option<Loop>,
) -> Option<Seq<Step>> {
    let reg_form = modrm / 64 == 3;
    let mem = !reg_form;
    let reg = (modrm / 8) % 8;
    let run = seq![Step::Run];
    let wr = seq![Step::WriteOperand];
    if 0xD0 <= opcode <= 0xD3 {
        let by_cl = (opcode / 2) % 2 == 1;
        Some(
            when(mem, sp(1)) + when(by_cl, sp(6) + sp(4 * cl)) + when(
                mem,
                sp(if by_cl { 1int } else { 2 }),
            ) + run + when(mem, wr),
        )
    } else if opcode == 0xD5 {
        Some(sp(3 + 6 * 8 + popcount(modrm as nat) as int + 3 + 2) + run)
    } else if opcode == 0xD4 {
        muldiv_steps(muldiv)
    } else if 0xE0 <= opcode <= 0xE3 {
        let entry: int = if opcode == 0xE2 { 0 } else { 1 };
        Some(
            run + if branch {
                sp(entry) + sp(1) + reljmp()
            } else {
                sp(1)
            },
        )
    } else if (opcode == 0xF6 || opcode == 0xF7) && reg < 2 {
        Some(sp(if opcode == 0xF6 { 2int } else { 1 }) + run)
    } else if 0xD8 <= opcode <= 0xDF {
        Some(when(mem, sp(1)) + run)
    } else if opcode == 0xC6 || opcode == 0xC7 {
        Some(sp(if opcode == 0xC6 { 1int } else { 0 }) + run + when(mem, sp(1) + wr))
    } else if (opcode == 0xF6 || opcode == 0xF7) && (reg == 2 || reg == 3) {
        Some(
            when(mem, sp(1)) + run + if reg_form {
                sp(1)
            } else {
                sp(2) + wr
            },
        )
    } else if opcode == 0xF6 || opcode == 0xF7 {
        muldiv_steps(muldiv)
    } else if opcode == 0xD7 {
        Some(sp(3) + seq![Step::ReadOperand, Step::Run])
    } else if opcode == 0xC4 || opcode == 0xC5 {
        Some(sp(3) + seq![Step::ReadPointerSegment, Step::Run])
    } else if opcode == 0xC1 || opcode == 0xC3 {
        Some(
            seq![Step::Pop, Step::Transfer { far: false }, Step::Susp] + sp(1) + seq![Step::Flush]
                + sp(2) + run,
        )
    } else if opcode == 0xC9 || opcode == 0xCB {
        Some(
            sp(2) + seq![Step::Pop, Step::Susp] + sp(3) + seq![
                Step::Pop,
                Step::Transfer { far: true },
                Step::Flush,
            ] + sp(2) + run,
        )
    } else if opcode == 0xC0 || opcode == 0xC2 || opcode == 0xC8 || opcode == 0xCA {
        let far = (opcode / 8) % 2 == 1;
        Some(
            sp(1) + seq![Step::Pop] + when(!far, seq![Step::Transfer { far: false }])
                + seq![Step::Susp] + sp(if far { 3int } else { 2 }) + when(
                far,
                seq![Step::Pop, Step::Transfer { far: true }],
            ) + seq![Step::Flush] + sp(3) + run,
        )
    } else if opcode == 0xCF {
        Some(
            sp(2) + seq![Step::Pop, Step::Susp] + sp(3) + seq![
                Step::Pop,
                Step::Transfer { far: true },
                Step::Flush,
            ] + sp(2) + seq![Step::Pop] + sp(1) + run,
        )
    } else if opcode == 0xE4 || opcode == 0xE5 {
        Some(sp(1) + seq![Step::ReadPort, Step::Run])
    } else if opcode == 0xE6 || opcode == 0xE7 {
        Some(sp(2) + seq![Step::Run, Step::WritePort])
    } else if opcode == 0xEC || opcode == 0xED {
        Some(seq![Step::ReadPort, Step::Run])
    } else if opcode == 0xEE || opcode == 0xEF {
        Some(sp(1) + seq![Step::Run, Step::WritePort])
    } else if opcode == 0xE8 {
        Some(seq![Step::Run, Step::Susp] + sp(4) + seq![Step::Flush] + sp(3) + seq![Step::Push])
    } else if opcode == 0xE9 || opcode == 0xEB {
        Some(run + reljmp())
    } else if opcode == 0xEA {
        Some(seq![Step::Run, Step::Susp] + sp(2) + seq![Step::Flush] + sp(1))
    } else if opcode == 0xCD {
        Some(interrupt_steps(0, true))
    } else if opcode == 0xCC {
        Some(interrupt_steps(3, true))
    } else if opcode == 0xCE {
        Some(
            if branch {
                interrupt_steps(4, true)
            } else {
                sp(2) + run
            },
        )
    } else if (opcode == 0xFE || opcode == 0xFF) && reg < 2 {
        Some(when(mem, sp(1)) + run + sp(1) + when(mem, sp(1) + wr))
    } else if opcode == 0xFF && reg == 2 {
        Some(run + sp(1) + seq![Step::Susp] + sp(4) + seq![Step::Flush] + sp(3) + seq![Step::Push])
    } else if opcode == 0xFF && reg == 3 && mem {
        Some(
            sp(2) + seq![Step::ReadPointerSegment, Step::Run] + sp(1) + seq![Step::Susp] + sp(4)
                + seq![Step::Push] + sp(3) + seq![Step::Flush] + sp(3) + seq![Step::Push],
        )
    } else if opcode == 0xFF && reg == 4 {
        Some(run + sp(1) + seq![Step::Susp] + sp(1) + seq![Step::Flush])
    } else if opcode == 0xFF && (reg == 6 || reg == 7) {
        Some(sp(if reg_form { 3int } else { 4 }) + seq![Step::Run, Step::Push])
    } else if opcode == 0xFF && reg == 5 && mem {
        Some(sp(2) + seq![Step::Susp] + sp(1) + seq![Step::ReadPointerSegment, Step::Run, Step::Flush])
    } else {
        None
    }
}

/// The routine `opcode` runs with this `modrm`, or `None` for an instruction
/// still priced from a timing row. `INTO` taken walks the interrupt routine
/// with four clocks in front of it; untaken it spends two.
pub open spec fn routine_steps(
    opcode: u8,
    modrm: u8,
    branch: bool,
    cl: u8,
    muldiv: Option<Loop>,
) -> Option<Seq<Step>> {
    if opcode < 0x80 {
        steps_below_80(opcode, modrm, branch, cl, muldiv)
    } else if opcode < 0x8C {
        steps_80_to_8b(opcode, modrm, branch, cl, muldiv)
    } else if opcode < 0xC0 {
        steps_8c_to_bf(opcode, modrm, branch, cl, muldiv)
    } else {
        steps_from_c0(opcode, modrm, branch, cl, muldiv)
    }
}

/// What a routine keeps at every step of its building: no zero-clock spend,
/// and every transfer reading words it popped.
pub open spec fn building(s: Seq<Step>) -> bool {
    &&& no_zero_spend(s)
    &&& transfers_popped(s)
}

/// The invariants every routine keeps: no zero-clock spend, every suspend
/// lifted by a flush behind it, every transfer reading words it popped.
pub open spec fn well_built(s: Seq<Step>) -> bool {
    &&& building(s)
    &&& susp_settled(s)
}

impl Routine {
    /// The step at `index`, or `None` past the end.
    pub fn get(&self, index: u8) -> (r: Option<Step>)
        requires
            self.len <= MAX_STEPS,
        ensures
            r == if index < self.len {
                Some(self@[index as int])
            } else {
                None::<Step>
            },
    {
        if index < self.len {
            Some(self.steps[index as usize])
        } else {
            None
        }
    }

    /// The steps it holds.
    pub fn steps(&self) -> (r: &[Step])
        requires
            self.len <= MAX_STEPS,
        ensures
            r@ == self@,
    {
        let s: &[Step] = vstd::array::array_as_slice(&self.steps);
        proof {
            vstd::array::axiom_spec_array_as_slice(&self.steps);
        }
        vstd::slice::slice_subrange(s, 0, self.len as usize)
    }

    /// Whether it contains `step`.
    pub fn contains(&self, step: Step) -> (r: bool)
        requires
            self.len <= MAX_STEPS,
        ensures
            r == self@.contains(step),
    {
        let mut i: usize = 0;
        while i < self.len as usize
            invariant
                self.len <= MAX_STEPS,
                i <= self.len,
                forall|k: int| 0 <= k < i ==> self@[k] != step,
            decreases self.len - i,
        {
            if self.steps[i] == step {
                assert(self@[i as int] == step);
                return true;
            }
            i = i + 1;
        }
        false
    }

    /// The clocks its `Spend`s add up to: its microcode time, not its span.
    pub fn clocks(&self) -> (r: u16)
        requires
            self.len <= MAX_STEPS,
            total_clocks(self@) <= u16::MAX,
        ensures
            r == total_clocks(self@),
    {
        let mut i: usize = 0;
        let mut sum: u16 = 0;
        while i < self.len as usize
            invariant
                self.len <= MAX_STEPS,
                i <= self.len,
                total_clocks(self@) <= u16::MAX,
                sum == total_clocks(self@.take(i as int)),
            decreases self.len - i,
        {
            proof {
                assert(self@.take(i as int + 1).drop_last() =~= self@.take(i as int));
                lemma_total_prefix(self@, i as int + 1);
            }
            let n: u16 = match self.steps[i] {
                Step::Spend(n) => n,
                _ => 0,
            };
            sum = sum + n;
            i = i + 1;
        }
        assert(self@.take(self.len as int) =~= self@);
        sum
    }
}

/// A prefix's clocks are no more than the whole's.
proof fn lemma_total_prefix(s: Seq<Step>, k: int)
    requires
        0 <= k <= s.len(),
    ensures
        total_clocks(s.take(k)) <= total_clocks(s),
    decreases s.len() - k,
{
    if k < s.len() {
        lemma_total_prefix(s, k + 1);
        assert(s.take(k + 1).drop_last() =~= s.take(k));
    } else {
        assert(s.take(k) =~= s);
    }
}

/// Assembles a routine a step at a time, keeping it well built.
#[derive(Clone, Copy, Debug)]
pub struct Build {
    pub routine: Routine,
}

impl View for Build {
    type V = Seq<Step>;

    open spec fn view(&self) -> Seq<Step> {
        self.routine@
    }
}

impl Build {
    /// An empty routine.
    pub fn new() -> (r: Self)
        ensures
            r@ == Seq::<Step>::empty(),
            r.routine.len == 0,
            well_built(r@),
            tail_clear(r.routine),
    {
        Build { routine: Routine { steps: [Step::Run; 24], len: 0 } }
    }

    /// Add a step. A transfer must come after the pops it reads.
    pub fn add_step(self, step: Step) -> (r: Self)
        requires
            self.routine.len < MAX_STEPS,
            step != Step::Spend(0),
            building(self@),
            tail_clear(self.routine),
            step matches Step::Transfer { far } ==> count_of(self@, Step::Pop) == if far {
                2nat
            } else {
                1
            },
        ensures
            r@ == self@.push(step),
            r.routine.len == self.routine.len + 1,
            tail_clear(r.routine),
            count_of(r@, Step::Pop) == count_of(self@, Step::Pop) + if step == Step::Pop {
                1nat
            } else {
                0
            },
            building(r@),
            step == Step::Run || self@.contains(Step::Run) ==> r@.contains(Step::Run),
            step == Step::Flush ==> susp_settled(r@),
            susp_settled(self@) && step != Step::Susp ==> susp_settled(r@),
    {
        let mut r = self;
        r.routine.steps[self.routine.len as usize] = step;
        r.routine.len = self.routine.len + 1;
        assert(r@ =~= self@.push(step));
        proof {
            if step == Step::Run {
                assert(r@[r@.len() - 1] == Step::Run);
            }
            if self@.contains(Step::Run) {
                let k = choose|k: int| 0 <= k < self@.len() && self@[k] == Step::Run;
                assert(r@[k] == Step::Run);
            }
        }
        let ghost s = self@;
        let ghost t = r@;
        assert(t.drop_last() =~= s);
        assert forall|i: int|
            #![trigger t[i]]
            0 <= i < t.len() implies match t[i] {
            Step::Transfer { far } => count_of(t.take(i), Step::Pop) == if far { 2nat } else { 1 },
            _ => true,
        } by {
            if i < s.len() {
                assert(t.take(i) =~= s.take(i));
            } else {
                assert(t.take(i) =~= s);
            }
        }
        assert forall|i: int|
            0 <= i < t.len() && t[i] == Step::Susp && (step == Step::Flush || (susp_settled(s)
                && step != Step::Susp)) implies exists|j: int|
            i < j < t.len() && #[trigger] t[j] == Step::Flush by {
            if step == Step::Flush {
                assert(t[t.len() - 1] == Step::Flush);
            } else {
                assert(s[i] == Step::Susp);
                let j = choose|j: int| i < j < s.len() && #[trigger] s[j] == Step::Flush;
                assert(t[j] == Step::Flush);
            }
        }
        r
    }

    /// Add `n` clocks, or nothing at all when `n` is zero.
    pub fn spend(self, n: u16) -> (r: Self)
        requires
            self.routine.len < MAX_STEPS,
            building(self@),
            tail_clear(self.routine),
        ensures
            tail_clear(r.routine),
            r@ == self@ + sp(n as int),
            r.routine.len == self.routine.len + if n == 0 { 0int } else { 1 },
            count_of(r@, Step::Pop) == count_of(self@, Step::Pop),
            self@.contains(Step::Run) ==> r@.contains(Step::Run),
            building(r@),
            susp_settled(self@) ==> susp_settled(r@),
    {
        if n == 0 {
            assert(self@ + sp(0) =~= self@);
            self
        } else {
            let r = self.add_step(Step::Spend(n));
            assert(self@.push(Step::Spend(n)) =~= self@ + sp(n as int));
            r
        }
    }

    /// The routine built.
    pub fn done(self) -> (r: Routine)
        ensures
            r@ == self@,
            r == self.routine,
    {
        self.routine
    }
}

/// Start a routine.
pub fn mc() -> (r: Build)
    ensures
        r@ == Seq::<Step>::empty(),
        r.routine.len == 0,
        well_built(r@),
        tail_clear(r.routine),
{
    Build::new()
}


/// A routine built as `s`: in bounds and keeping the invariants.
pub open spec fn built_as(r: Routine, s: Seq<Step>) -> bool {
    &&& r.len <= MAX_STEPS
    &&& r@ =~= s
    &&& well_built(r@)
    &&& tail_clear(r)
}

/// Each undocumented return alias (0xC0, 0xC1, 0xC8, 0xC9) runs exactly the
/// routine of the return it aliases (0xC2, 0xC3, 0xCA, 0xCB), and all have
/// one.
pub proof fn law_return_aliases_run_what_they_alias(
    modrm: u8,
    branch: bool,
    cl: u8,
    muldiv: Option<Loop>,
)
    ensures
        routine_steps(0xC0, modrm, branch, cl, muldiv) == routine_steps(0xC2, modrm, branch, cl, muldiv),
        routine_steps(0xC1, modrm, branch, cl, muldiv) == routine_steps(0xC3, modrm, branch, cl, muldiv),
        routine_steps(0xC8, modrm, branch, cl, muldiv) == routine_steps(0xCA, modrm, branch, cl, muldiv),
        routine_steps(0xC9, modrm, branch, cl, muldiv) == routine_steps(0xCB, modrm, branch, cl, muldiv),
        routine_steps(0xC2, modrm, branch, cl, muldiv) is Some,
        routine_steps(0xC3, modrm, branch, cl, muldiv) is Some,
        routine_steps(0xCA, modrm, branch, cl, muldiv) is Some,
        routine_steps(0xCB, modrm, branch, cl, muldiv) is Some,
{
}

/// Two routines built as the same steps are the same routine.
pub proof fn law_routines_built_alike_are_equal(a: Routine, b: Routine, s: Seq<Step>)
    requires
        built_as(a, s),
        built_as(b, s),
    ensures
        a == b,
{
    assert(a.len == b.len);
    assert(a.steps@ =~= b.steps@) by {
        assert forall|i: int| 0 <= i < 24 implies a.steps@[i] == b.steps@[i] by {
            if i < a.len {
                assert(a@[i] == b@[i]);
            }
        }
    }
    assert(a.steps =~= b.steps);
}

/// The interrupt routine, entered by `INT n`, `INT 3`, a taken `INTO`, a
/// divide fault and a hardware interrupt alike. `entry` is what the opcode
/// spends before it reaches INTR; `first_line` whether 0x19d is spent.
#[verifier::rlimit(60)]
pub fn interrupt(entry: u16, first_line: bool) -> (r: Routine)
    ensures
        built_as(r, interrupt_steps(entry, first_line)),
        r@.contains(Step::Run),
{
    let b = mc().spend(entry).spend(2 + if first_line {
        1
    } else {
        0
    }).add_step(Step::ReadVectorWord).spend(1).add_step(Step::ReadVectorWord).add_step(
        Step::Susp,
    ).spend(3).add_step(Step::Run).add_step(Step::Push).spend(5).add_step(Step::Push).spend(
        3,
    ).add_step(Step::Flush).spend(3).add_step(Step::Push);
    b.done()
}

/// The routine a multiply, divide or `AAM` runs: the co-routine's clocks
/// and the body, or the interrupt routine when it faulted.
fn muldiv_routine(muldiv: Option<Loop>) -> (r: Option<Routine>)
    ensures
        match muldiv_steps(muldiv) {
            Some(s) => r matches Some(x) && built_as(x, s),
            None => r is None,
        },
        r matches Some(x) ==> x@.contains(Step::Run),
{
    match muldiv {
        Some(Loop::Completed(clocks)) => Some(mc().spend(clocks).add_step(Step::Run).done()),
        Some(Loop::Faulted(clocks)) => Some(interrupt(clocks, false)),
        None => None,
    }
}

/// The shift arm of the routine table.
proof fn lemma_shift_arm(opcode: u8, modrm: u8, branch: bool, cl: u8, muldiv: Option<Loop>)
    requires
        0xD0 <= opcode <= 0xD3,
    ensures
        ({
            let mem = modrm / 64 != 3;
            let by_cl = (opcode / 2) % 2 == 1;
            routine_steps(opcode, modrm, branch, cl, muldiv) == Some(
                when(mem, sp(1)) + when(by_cl, sp(6) + sp(4 * cl)) + when(
                    mem,
                    sp(if by_cl { 1int } else { 2 }),
                ) + seq![Step::Run] + when(mem, seq![Step::WriteOperand]),
            )
        }),
{
}

/// The shifts and rotates, by one or by CL: the address routine's return
/// for a memory operand, six clocks and four a bit for the CL forms, the
/// clock or two before a write back, the body, and the write back.
fn shift_routine(opcode: u8, mem: bool, cl: u8) -> (r: Routine)
    requires
        0xD0 <= opcode <= 0xD3,
    ensures
        ({
            let by_cl = (opcode / 2) % 2 == 1;
            built_as(
                r,
                when(mem, sp(1)) + when(by_cl, sp(6) + sp(4 * cl)) + when(
                    mem,
                    sp(if by_cl { 1int } else { 2 }),
                ) + seq![Step::Run] + when(mem, seq![Step::WriteOperand]),
            )
        }),
        r@.contains(Step::Run),
{
    let by_cl = (opcode / 2) % 2 == 1;
    let mut r = mc();
    if mem {
        r = r.spend(1);
    }
    if by_cl {
        r = r.spend(6);
        r = r.spend(4 * cl as u16);
    }
    if mem {
        r = r.spend(if by_cl {
            1
        } else {
            2
        });
    }
    r = r.add_step(Step::Run);
    if mem {
        r = r.add_step(Step::WriteOperand);
    }
    r.done()
}

/// `INC r/m` and `DEC r/m`: the address routine's return for a memory
/// operand, the body, 0x020, and 0x021 and the write back in memory.
fn inc_dec(mem: bool) -> (r: Routine)
    ensures
        built_as(
            r,
            when(mem, sp(1)) + seq![Step::Run] + sp(1) + when(mem, sp(1) + seq![Step::WriteOperand]),
        ),
        r@.contains(Step::Run),
{
    let mut r = mc();
    if mem {
        r = r.spend(1);
    }
    r = r.add_step(Step::Run).spend(1);
    if mem {
        r = r.spend(1).add_step(Step::WriteOperand);
    }
    r.done()
}

#[verifier::rlimit(100)]
fn routine_low(opcode: u8, modrm: u8, branch: bool, cl: u8, muldiv: Option<Loop>) -> (r: Option<Routine>)
    requires
        opcode < 0x80,
    ensures
        match steps_below_80(opcode, modrm, branch, cl, muldiv) {
            Some(s) => r matches Some(x) && built_as(x, s),
            None => r is None,
        },
        r matches Some(x) ==> x@.contains(Step::Run),
{
    let register_form = modrm / 64 == 3;
    let mem = !register_form;
    let reg = (modrm / 8) % 8;
    match opcode {
        0x60..=0x7F => {
            let r = mc().spend(1).add_step(Step::Run);
            if !branch {
                return Some(r.done());
            }
            Some(
                r.spend(1).add_step(Step::Susp).spend(4).add_step(Step::Flush).spend(1).done(),
            )
        },
        0x00..=0x3B if opcode % 8 < 4 => {
            let stores = (opcode / 2) % 2 == 0;
            let compares = (opcode / 8) % 8 == 7;
            let mut r = mc();
            if mem {
                r = r.spend(1);
            }
            r = r.spend(1).add_step(Step::Run);
            if mem && stores && !compares {
                r = r.spend(2).add_step(Step::WriteOperand);
            }
            Some(r.done())
        },
        0x04 | 0x05 | 0x0C | 0x0D | 0x14 | 0x15 | 0x1C | 0x1D | 0x24 | 0x25 | 0x2C | 0x2D | 0x34
        | 0x35 | 0x3C | 0x3D => Some(
            mc().spend(if opcode % 2 == 0 {
                1
            } else {
                0
            }).add_step(Step::Run).done(),
        ),
        0x50..=0x57 | 0x06 | 0x0E | 0x16 | 0x1E => Some(
            mc().spend(3).add_step(Step::Run).add_step(Step::Push).done(),
        ),
        0x58..=0x5F | 0x07 | 0x17 | 0x1F => Some(
            mc().add_step(Step::Pop).add_step(Step::Run).done(),
        ),
        _ => None,
    }
}

#[verifier::rlimit(100)]
fn routine_mid(opcode: u8, modrm: u8, branch: bool, cl: u8, muldiv: Option<Loop>) -> (r: Option<Routine>)
    requires
        0x80 <= opcode < 0x8C,
    ensures
        match steps_80_to_8b(opcode, modrm, branch, cl, muldiv) {
            Some(s) => r matches Some(x) && built_as(x, s),
            None => r is None,
        },
        r matches Some(x) ==> x@.contains(Step::Run),
{
    let register_form = modrm / 64 == 3;
    let mem = !register_form;
    let reg = (modrm / 8) % 8;
    match opcode {
        0x88..=0x8B => {
            let stores = (opcode / 2) % 2 == 0;
            let mut r = mc();
            if mem {
                r = r.spend(if stores {
                    2
                } else {
                    1
                });
                if stores {
                    r = r.spend(2);
                }
            }
            r = r.add_step(Step::Run);
            if mem && stores {
                r = r.add_step(Step::WriteOperand);
            }
            Some(r.done())
        },
        0x84 | 0x85 => {
            let mut r = mc();
            if mem {
                r = r.spend(1);
            }
            Some(r.spend(1).add_step(Step::Run).done())
        },
        0x80..=0x83 => {
            let compares = reg == 7;
            let mut r = mc().spend(if opcode != 0x81 {
                1
            } else {
                0
            }).add_step(Step::Run);
            if mem {
                r = r.spend(1);
                if !compares {
                    r = r.add_step(Step::WriteOperand);
                }
            }
            Some(r.done())
        },
        0x86 | 0x87 => {
            let mut r = mc();
            if register_form {
                r = r.spend(2).add_step(Step::Run);
            } else {
                r = r.spend(5).add_step(Step::Run).add_step(Step::WriteOperand);
            }
            Some(r.done())
        },
        _ => None,
    }
}

#[verifier::rlimit(100)]
fn routine_upper(opcode: u8, modrm: u8, branch: bool, cl: u8, muldiv: Option<Loop>) -> (r: Option<Routine>)
    requires
        0x8C <= opcode < 0xC0,
    ensures
        match steps_8c_to_bf(opcode, modrm, branch, cl, muldiv) {
            Some(s) => r matches Some(x) && built_as(x, s),
            None => r is None,
        },
        r matches Some(x) ==> x@.contains(Step::Run),
{
    let register_form = modrm / 64 == 3;
    let mem = !register_form;
    let reg = (modrm / 8) % 8;
    match opcode {
        0x8D => Some(mc().spend(2).add_step(Step::Run).done()),
        0x8C | 0x8E => {
            let stores = opcode == 0x8C;
            let mut r = mc();
            if mem {
                r = r.spend(if stores {
                    2
                } else {
                    1
                });
                if stores {
                    r = r.spend(1);
                }
            }
            r = r.add_step(Step::Run);
            if stores && mem {
                r = r.add_step(Step::WriteOperand);
            }
            Some(r.done())
        },
        0xA0 | 0xA1 => Some(mc().add_step(Step::Run).done()),
        0xA2 | 0xA3 => Some(
            mc().add_step(Step::Run).spend(1).add_step(Step::WriteOperand).done(),
        ),
        0xA8 | 0xA9 => Some(
            mc().spend(if opcode == 0xA8 {
                1
            } else {
                0
            }).add_step(Step::Run).done(),
        ),
        0x8F => {
            let mut r = mc();
            if mem {
                r = r.spend(2);
            }
            r = r.spend(1).add_step(Step::Pop).add_step(Step::Run);
            r = r.spend(1);
            if mem {
                r = r.spend(2).add_step(Step::WriteOperand);
            }
            Some(r.done())
        },
        0xB0..=0xBF => Some(
            mc().spend(if (opcode / 8) % 2 == 0 {
                1
            } else {
                0
            }).add_step(Step::Run).done(),
        ),
        0x9A => Some(
            mc().add_step(Step::Run).spend(1).add_step(Step::Susp).spend(4).add_step(
                Step::Push,
            ).spend(3).add_step(Step::Flush).spend(3).add_step(Step::Push).done(),
        ),
        0x9C => Some(mc().spend(3).add_step(Step::Run).add_step(Step::Push).done()),
        0x9D => Some(mc().add_step(Step::Pop).add_step(Step::Run).done()),

        _ => None,
    }
}

#[verifier::rlimit(100)]
fn routine_c0_to_df(opcode: u8, modrm: u8, branch: bool, cl: u8, muldiv: Option<Loop>) -> (r: Option<Routine>)
    requires
        0xC0 <= opcode < 0xE0,
    ensures
        match steps_from_c0(opcode, modrm, branch, cl, muldiv) {
            Some(s) => r matches Some(x) && built_as(x, s),
            None => r is None,
        },
        r matches Some(x) ==> x@.contains(Step::Run),
{
    let register_form = modrm / 64 == 3;
    let mem = !register_form;
    let reg = (modrm / 8) % 8;
    match opcode {
        0xD0..=0xD3 => {
            proof {
                lemma_shift_arm(opcode, modrm, branch, cl, muldiv);
            }
            Some(shift_routine(opcode, mem, cl))
        },
        0xD5 => {
            let bits = count_ones16(modrm as u16);
            Some(mc().spend(3 + corx_cycles(8, bits) + 2).add_step(Step::Run).done())
        },
        0xD4 => muldiv_routine(muldiv),
        0xD8..=0xDF => {
            let mut r = mc();
            if mem {
                r = r.spend(1);
            }
            Some(r.add_step(Step::Run).done())
        },
        0xC6 | 0xC7 => {
            let mut r = mc().spend(if opcode == 0xC6 {
                1
            } else {
                0
            }).add_step(Step::Run);
            if mem {
                r = r.spend(1).add_step(Step::WriteOperand);
            }
            Some(r.done())
        },
        0xD7 => Some(mc().spend(3).add_step(Step::ReadOperand).add_step(Step::Run).done()),
        0xC4 | 0xC5 => Some(
            mc().spend(3).add_step(Step::ReadPointerSegment).add_step(Step::Run).done(),
        ),
        0xC1 | 0xC3 => Some(
            mc().add_step(Step::Pop).add_step(Step::Transfer { far: false }).add_step(
                Step::Susp,
            ).spend(1).add_step(Step::Flush).spend(2).add_step(Step::Run).done(),
        ),
        0xC9 | 0xCB => Some(
            mc().spend(2).add_step(Step::Pop).add_step(Step::Susp).spend(3).add_step(
                Step::Pop,
            ).add_step(Step::Transfer { far: true }).add_step(Step::Flush).spend(2).add_step(
                Step::Run,
            ).done(),
        ),
        0xC0 | 0xC2 | 0xC8 | 0xCA => {
            let far = (opcode / 8) % 2 == 1;
            let mut r = mc().spend(1).add_step(Step::Pop);
            if !far {
                r = r.add_step(Step::Transfer { far: false });
            }
            r = r.add_step(Step::Susp).spend(if far {
                3
            } else {
                2
            });
            if far {
                r = r.add_step(Step::Pop).add_step(Step::Transfer { far: true });
            }
            Some(r.add_step(Step::Flush).spend(3).add_step(Step::Run).done())
        },
        0xCF => Some(
            mc().spend(2).add_step(Step::Pop).add_step(Step::Susp).spend(3).add_step(
                Step::Pop,
            ).add_step(Step::Transfer { far: true }).add_step(Step::Flush).spend(2).add_step(
                Step::Pop,
            ).spend(1).add_step(Step::Run).done(),
        ),
        0xCD => Some(interrupt(0, true)),
        0xCC => Some(interrupt(3, true)),
        0xCE => if branch {
            Some(interrupt(4, true))
        } else {
            Some(mc().spend(2).add_step(Step::Run).done())
        },
        _ => None,
    }
}

#[verifier::rlimit(100)]
fn routine_from_e0(opcode: u8, modrm: u8, branch: bool, cl: u8, muldiv: Option<Loop>) -> (r: Option<Routine>)
    requires
        opcode >= 0xE0,
    ensures
        match steps_from_c0(opcode, modrm, branch, cl, muldiv) {
            Some(s) => r matches Some(x) && built_as(x, s),
            None => r is None,
        },
        r matches Some(x) ==> x@.contains(Step::Run),
{
    let register_form = modrm / 64 == 3;
    let mem = !register_form;
    let reg = (modrm / 8) % 8;
    match opcode {
        0xE0..=0xE3 => {
            let entry: u16 = if opcode == 0xE2 {
                0
            } else {
                1
            };
            let r = mc().add_step(Step::Run);
            if !branch {
                return Some(r.spend(1).done());
            }
            Some(
                r.spend(entry).spend(1).add_step(Step::Susp).spend(4).add_step(Step::Flush).spend(
                    1,
                ).done(),
            )
        },
        0xF6 | 0xF7 => {
            if reg < 2 {
                Some(
                    mc().spend(if opcode == 0xF6 {
                        2
                    } else {
                        1
                    }).add_step(Step::Run).done(),
                )
            } else if reg == 2 || reg == 3 {
                let mut r = mc();
                if mem {
                    r = r.spend(1);
                }
                r = r.add_step(Step::Run);
                if register_form {
                    r = r.spend(1);
                } else {
                    r = r.spend(2).add_step(Step::WriteOperand);
                }
                Some(r.done())
            } else {
                muldiv_routine(muldiv)
            }
        },
        0xE4 | 0xE5 => Some(
            mc().spend(1).add_step(Step::ReadPort).add_step(Step::Run).done(),
        ),
        0xE6 | 0xE7 => Some(
            mc().spend(2).add_step(Step::Run).add_step(Step::WritePort).done(),
        ),
        0xEC | 0xED => Some(mc().add_step(Step::ReadPort).add_step(Step::Run).done()),
        0xEE | 0xEF => Some(
            mc().spend(1).add_step(Step::Run).add_step(Step::WritePort).done(),
        ),
        0xE8 => Some(
            mc().add_step(Step::Run).add_step(Step::Susp).spend(4).add_step(Step::Flush).spend(
                3,
            ).add_step(Step::Push).done(),
        ),
        0xE9 | 0xEB => Some(
            mc().add_step(Step::Run).add_step(Step::Susp).spend(4).add_step(Step::Flush).spend(
                1,
            ).done(),
        ),
        0xEA => Some(
            mc().add_step(Step::Run).add_step(Step::Susp).spend(2).add_step(Step::Flush).spend(
                1,
            ).done(),
        ),
        0xFE => if reg < 2 {
            Some(inc_dec(mem))
        } else {
            None
        },
        0xFF => {
            if reg < 2 {
                Some(inc_dec(mem))
            } else if reg == 2 {
                Some(
                    mc().add_step(Step::Run).spend(1).add_step(Step::Susp).spend(4).add_step(
                        Step::Flush,
                    ).spend(3).add_step(Step::Push).done(),
                )
            } else if reg == 3 && mem {
                Some(
                    mc().spend(2).add_step(Step::ReadPointerSegment).add_step(Step::Run).spend(
                        1,
                    ).add_step(Step::Susp).spend(4).add_step(Step::Push).spend(3).add_step(
                        Step::Flush,
                    ).spend(3).add_step(Step::Push).done(),
                )
            } else if reg == 4 {
                Some(
                    mc().add_step(Step::Run).spend(1).add_step(Step::Susp).spend(1).add_step(
                        Step::Flush,
                    ).done(),
                )
            } else if reg == 6 || reg == 7 {
                Some(
                    mc().spend(if register_form {
                        3
                    } else {
                        4
                    }).add_step(Step::Run).add_step(Step::Push).done(),
                )
            } else if reg == 5 && mem {
                Some(
                    mc().spend(2).add_step(Step::Susp).spend(1).add_step(
                        Step::ReadPointerSegment,
                    ).add_step(Step::Run).add_step(Step::Flush).done(),
                )
            } else {
                None
            }
        },



        _ => None,
    }
}

/// The routine `opcode` runs with this `modrm`, or `None` for an instruction
/// still priced from a timing row. `branch` is whether a conditional form
/// transfers, `cl` the shift count, and `muldiv` the multiply's or divide's
/// co-routine time, which no encoding carries.
pub fn routine(opcode: u8, modrm: u8, branch: bool, cl: u8, muldiv: Option<Loop>) -> (r: Option<
    Routine,
>)
    ensures
        match routine_steps(opcode, modrm, branch, cl, muldiv) {
            Some(s) => r matches Some(x) && built_as(x, s),
            None => r is None,
        },
        r matches Some(x) ==> x@.contains(Step::Run),
{
    if opcode < 0x80 {
        routine_low(opcode, modrm, branch, cl, muldiv)
    } else if opcode < 0x8C {
        routine_mid(opcode, modrm, branch, cl, muldiv)
    } else if opcode < 0xC0 {
        routine_upper(opcode, modrm, branch, cl, muldiv)
    } else if opcode < 0xE0 {
        routine_c0_to_df(opcode, modrm, branch, cl, muldiv)
    } else {
        routine_from_e0(opcode, modrm, branch, cl, muldiv)
    }
}

/// How far into a routine the sequencer is, and what it has already done that
/// a step alone does not say.
#[derive(Clone, Copy, Debug, PartialEq, Eq)]
pub struct Cursor {
    /// The routine being walked.
    pub steps: Routine,
    /// The next step to run.
    pub at: u8,
    /// How many words the routine has already pushed.
    pub pushed: u8,
    /// How many words it has already taken off the stack.
    pub popped: u8,
    /// How many vector words it has already read.
    pub read: u8,
    /// Whether the routine has already thrown the queue away.
    pub flushed: bool,
    /// Whether a `Susp` has handed back the clock it was reached on.
    pub suspend_deferred: bool,
    /// Whether the loader's clock before the routine is still owed.
    pub lead_in: bool,
}

impl Cursor {
    /// Start `steps` from the beginning, with `lead_in` saying whether the
    /// loader's clock before the routine is still owed.
    pub fn new(steps: Routine, lead_in: bool) -> (r: Self)
        ensures
            r == (Cursor {
                steps,
                at: 0,
                pushed: 0,
                popped: 0,
                read: 0,
                flushed: false,
                suspend_deferred: false,
                lead_in,
            }),
    {
        Cursor {
            steps,
            at: 0,
            pushed: 0,
            popped: 0,
            read: 0,
            flushed: false,
            suspend_deferred: false,
            lead_in,
        }
    }

    /// Take the next step, or `None` when the routine is over. The loader's
    /// lead-in comes out first, once, as one clock.
    pub fn next(&mut self) -> (r: Option<Step>)
        requires
            old(self).steps.len <= MAX_STEPS,
        ensures
            old(self).lead_in ==> r == Some(Step::Spend(1)) && *final(self) == (Cursor {
                lead_in: false,
                ..*old(self)
            }),
            !old(self).lead_in && old(self).at < old(self).steps.len ==> r == Some(
                old(self).steps@[old(self).at as int],
            ) && *final(self) == (Cursor { at: (old(self).at + 1) as u8, ..*old(self) }),
            !old(self).lead_in && old(self).at >= old(self).steps.len ==> r is None && *final(self)
                == *old(self),
    {
        if self.lead_in {
            self.lead_in = false;
            return Some(Step::Spend(1));
        }
        let step = self.steps.get(self.at);
        if step.is_some() {
            self.at = self.at + 1;
        }
        step
    }

    /// Put a `Susp` back so it is asked again on the next clock.
    pub fn rewind_to_wait(&mut self)
        requires
            old(self).at > 0,
        ensures
            *final(self) == (Cursor { at: (old(self).at - 1) as u8, ..*old(self) }),
    {
        self.at = self.at - 1;
    }
}

/// How often `x` occurs in two lists is the sum over each.
pub proof fn lemma_count_add(a: Seq<Step>, b: Seq<Step>, x: Step)
    ensures
        count_of(a + b, x) == count_of(a, x) + count_of(b, x),
    decreases b.len(),
{
    if b.len() > 0 {
        lemma_count_add(a, b.drop_last(), x);
        assert((a + b).drop_last() =~= a + b.drop_last());
    } else {
        assert(a + b =~= a);
    }
}

/// The body of the interrupt routine past its entry clocks.
pub open spec fn intr_tail() -> Seq<Step> {
    seq![
        Step::ReadVectorWord,
        Step::Spend(1),
        Step::ReadVectorWord,
        Step::Susp,
        Step::Spend(3),
        Step::Run,
        Step::Push,
        Step::Spend(5),
        Step::Push,
        Step::Spend(3),
        Step::Flush,
        Step::Spend(3),
        Step::Push,
    ]
}

/// The interrupt routine is its entry clocks and a fixed tail.
proof fn lemma_interrupt_shape(entry: u16, first_line: bool)
    ensures
        interrupt_steps(entry, first_line) =~= sp(entry as int) + sp(
            2 + if first_line { 1int } else { 0 },
        ) + intr_tail(),
{
}

/// Counting occurrences in the tail of the interrupt routine.
proof fn lemma_tail_counts()
    ensures
        count_of(intr_tail(), Step::Push) == 3,
        count_of(intr_tail().take(5), Step::ReadVectorWord) == 2,
        count_of(intr_tail().take(10), Step::Push) == 2,
        count_of(intr_tail(), Step::Flush) == 1,
        count_of(intr_tail(), Step::Run) == 1,
        count_of(intr_tail(), Step::ReadVectorWord) == 2,
{
    reveal_with_fuel(count_of, 14);
    assert(intr_tail().take(5).drop_last() =~= intr_tail().take(4));
    assert(intr_tail().take(10).drop_last() =~= intr_tail().take(9));
}

/// An entry spend holds no word, no flush and no run.
proof fn lemma_spend_counts(n: int, x: Step)
    requires
        !(x is Spend),
    ensures
        count_of(sp(n), x) == 0,
{
    reveal_with_fuel(count_of, 2);
}

/// The interrupt pushes exactly three words (FLAGS, CS and IP), reads the
/// two vector words, both before it runs, runs once, and throws the queue
/// away once, with two of its three words on the stack: the reload beats the
/// last write to the bus. An entry cost is one spend in front of the
/// routine entered with none.
pub proof fn law_interrupt_routine_shape(entry: u16, first_line: bool)
    ensures
        ({
            let s = interrupt_steps(entry, first_line);
            let k: int = sp(entry as int).len() as int + 1;
            &&& count_of(s, Step::Push) == 3
            &&& count_of(s, Step::ReadVectorWord) == 2
            &&& count_of(s, Step::Run) == 1
            &&& count_of(s, Step::Flush) == 1
            &&& s[k + 5] == Step::Run
            &&& count_of(s.take(k + 5), Step::ReadVectorWord) == 2
            &&& s[k + 10] == Step::Flush
            &&& count_of(s.take(k + 10), Step::Push) == 2
            &&& entry > 0 ==> s == seq![Step::Spend(entry)] + interrupt_steps(0, first_line)
        }),
{
    let f: int = 2 + if first_line { 1int } else { 0 };
    let head = sp(entry as int) + sp(f);
    let k: int = sp(entry as int).len() as int + 1;
    lemma_interrupt_shape(entry, first_line);
    lemma_tail_counts();
    let s = interrupt_steps(entry, first_line);
    assert(head.len() == k);
    assert(s.take(k + 5) =~= head + intr_tail().take(5));
    assert(s.take(k + 10) =~= head + intr_tail().take(10));
    lemma_count_add(head, intr_tail(), Step::Push);
    lemma_count_add(head, intr_tail(), Step::Run);
    lemma_count_add(head, intr_tail(), Step::Flush);
    lemma_count_add(head, intr_tail(), Step::ReadVectorWord);
    lemma_count_add(head, intr_tail().take(5), Step::ReadVectorWord);
    lemma_count_add(head, intr_tail().take(10), Step::Push);
    lemma_count_add(sp(entry as int), sp(f), Step::Push);
    lemma_count_add(sp(entry as int), sp(f), Step::Run);
    lemma_count_add(sp(entry as int), sp(f), Step::Flush);
    lemma_count_add(sp(entry as int), sp(f), Step::ReadVectorWord);
    lemma_spend_counts(entry as int, Step::Push);
    lemma_spend_counts(f, Step::Push);
    lemma_spend_counts(entry as int, Step::Run);
    lemma_spend_counts(f, Step::Run);
    lemma_spend_counts(entry as int, Step::Flush);
    lemma_spend_counts(f, Step::Flush);
    lemma_spend_counts(entry as int, Step::ReadVectorWord);
    lemma_spend_counts(f, Step::ReadVectorWord);
    if entry > 0 {
        lemma_interrupt_shape(0, first_line);
        assert(sp(0) =~= Seq::<Step>::empty());
        assert(s =~= seq![Step::Spend(entry)] + interrupt_steps(0, first_line));
    }
}

/// `INT 3` is `INT n` with three clocks in front of it and nothing else
/// different.
pub proof fn law_int3_is_int_n_with_an_entry_cost()
    ensures
        routine_steps(0xCC, 0, false, 0, None) == Some(
            seq![Step::Spend(3)] + routine_steps(0xCD, 0, false, 0, None).unwrap(),
        ),
{
    assert(interrupt_steps(3, true) =~= seq![Step::Spend(3)] + interrupt_steps(0, true));
}

/// The byte and word forms of an operation run the same routine, where the
/// only difference between their encodings is the width bit and no
/// immediate rides on it.
pub proof fn law_byte_and_word_forms_run_the_same_routine(
    byte_op: u8,
    modrm: u8,
    branch: bool,
    cl: u8,
    muldiv: Option<Loop>,
)
    requires
        byte_op == 0x00 || byte_op == 0x02 || byte_op == 0x38 || byte_op == 0x3A || byte_op
            == 0x84 || byte_op == 0x86 || byte_op == 0x88 || byte_op == 0x8A || byte_op == 0xD0
            || byte_op == 0xD2 || (byte_op == 0xFE && (modrm / 8) % 8 < 2),
    ensures
        routine_steps(byte_op, modrm, branch, cl, muldiv) == routine_steps(
            (byte_op + 1) as u8,
            modrm,
            branch,
            cl,
            muldiv,
        ),
{
}

/// No opcode is priced twice: one that runs a routine has no timing row,
/// and none in the table of branches on the state.
pub proof fn law_an_opcode_with_a_routine_has_no_row(opcode: u8, modrm: u8, branch: bool)
    ensures
        routine_steps(opcode, modrm, branch, 0, None) is Some ==> super::timing::eu_row(
            opcode,
            modrm,
        ) == 0 && (super::timing::branches(opcode) ==> super::timing::branch_row(opcode, branch)
            == 0),
{
}

} // verus!
