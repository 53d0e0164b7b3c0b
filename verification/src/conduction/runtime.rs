use vstd::prelude::*;
use std::time::Duration;
use crate::conduction::script::{
    chars_of, contains_chars, contains_seq, remove_all, remove_all_chars, string_from_chars,
};
use crate::substrate::buffer::{ALIGNMENT, LEDGER_SIZE, SUBSTRATE_SIZE};

verus! {

/// Handle type of the host's event loop (only ever seen behind a pointer).
#[allow(non_camel_case_types)]
pub struct uv_loop_t {
    _unused: [u8; 0],
}

/// How the host's event loop is run once.
#[allow(non_camel_case_types)]
#[derive(Clone, Copy, PartialEq, Eq, Structural, Debug)]
pub enum uv_run_mode {
    UV_RUN_DEFAULT,
    UV_RUN_ONCE,
    UV_RUN_NOWAIT,
}

/// Handle type of the script host (only ever seen behind a pointer).
#[allow(non_camel_case_types)]
pub struct bare_t {
    _unused: [u8; 0],
}

/// Handle type of a script environment (only ever seen behind a pointer).
#[allow(non_camel_case_types)]
pub struct js_env_t {
    _unused: [u8; 0],
}

/// Handle type of the script platform (only ever seen behind a pointer).
#[allow(non_camel_case_types)]
pub struct js_platform_t {
    _unused: [u8; 0],
}

/// Handle type of a script value (only ever seen behind a pointer).
#[allow(non_camel_case_types)]
pub struct js_value_t {
    _unused: [u8; 0],
}

/// Options handed to the script host at setup.
#[allow(non_camel_case_types)]
#[derive(Clone, Copy, PartialEq, Eq, Structural, Debug)]
pub struct bare_options_t {
    pub memory_limit: usize,
}

/// What the runtime reports when a request is refused or the host fails.
#[derive(Clone, PartialEq, Eq, Debug)]
pub enum MantleError {
    /// The script host could not be set up; its status code.
    SetupFailed { code: i32 },
    /// The script reads `non_existent_variable`, which no environment defines.
    UndefinedReference,
    /// The script engine rejected the script; its status code.
    ScriptFailed { code: i32 },
    /// The fuel left is below the cost of one tick.
    FuelExhausted,
    /// The time slice offered for a tick is below the watchdog's minimum.
    WatchdogTimeout,
    /// The script file `filename` could not be loaded; the host's status code.
    LoadFailed { filename: String, code: i32 },
}

/// Fuel that one tick of the engine consumes.
pub const TICK_COST: u64 = 10;

/// Shortest time slice, in milliseconds, that the watchdog lets a tick run in.
pub const WATCHDOG_MIN_MS: u128 = 5;

/// The tag that marks a script written in experience mode; it is removed
/// before the script runs.
pub open spec fn experience_tag() -> Seq<char> {
    "@experience mode"@
}

/// A name that no script environment defines; a script that still mentions
/// it after the tag is removed is refused before it runs.
pub open spec fn undefined_name() -> Seq<char> {
    "non_existent_variable"@
}

/// Whether a tick with `fuel` left runs.
pub open spec fn tick_succeeds(fuel: u64) -> bool {
    fuel >= TICK_COST
}

/// The fuel left after one tick attempt with `fuel` left.
pub open spec fn tick_fuel(fuel: u64) -> u64 {
    if tick_succeeds(fuel) {
        (fuel - TICK_COST) as u64
    } else {
        fuel
    }
}

/// The fuel left after `k` tick attempts starting from `fuel`.
pub open spec fn fuel_after(fuel: u64, k: nat) -> u64
    decreases k,
{
    if k == 0 {
        fuel
    } else {
        fuel_after(tick_fuel(fuel), (k - 1) as nat)
    }
}

/// The script text that runs for `source`, or `None` when it is refused:
/// the experience tag is removed, and what is left must not mention the
/// undefined name.
pub open spec fn prepared_source(source: Seq<char>) -> Option<Seq<char>> {
    let stripped = remove_all(source, experience_tag());
    if contains_seq(stripped, undefined_name()) {
        None
    } else {
        Some(stripped)
    }
}

/// The addresses of the host objects that a runtime drives.
#[derive(Clone, Copy, PartialEq, Eq, Structural, Debug)]
pub struct HostHandles {
    pub bare: usize,
    pub env: usize,
    pub uv_loop: usize,
    pub substrate_ptr: usize,
    pub ledger_ptr: usize,
}

/// The state of a runtime as its contracts see it.
pub struct RuntimeView {
    pub handles: HostHandles,
    pub fuel: u64,
}

/// The calls that change a runtime once it is built.
pub enum RuntimeOp {
    /// `tick_engine` or `tick`.
    Tick,
    /// `tick_engine_with_timeout_ms` (or `tick_engine_with_timeout`) with a
    /// time slice of this many whole milliseconds.
    TickWithTimeoutMs(u128),
    /// `set_execution_fuel_limit`.
    SetFuel(u64),
}

/// The state after one call `op` on a runtime in state `v`.
pub open spec fn apply_op(v: RuntimeView, op: RuntimeOp) -> RuntimeView {
    match op {
        RuntimeOp::Tick => RuntimeView { handles: v.handles, fuel: tick_fuel(v.fuel) },
        RuntimeOp::TickWithTimeoutMs(ms) => if ms < WATCHDOG_MIN_MS {
            v
        } else {
            RuntimeView { handles: v.handles, fuel: tick_fuel(v.fuel) }
        },
        RuntimeOp::SetFuel(n) => RuntimeView { handles: v.handles, fuel: n },
    }
}

/// The state after the calls `ops`, in order, on a runtime in state `v`.
pub open spec fn run_ops(v: RuntimeView, ops: Seq<RuntimeOp>) -> RuntimeView
    decreases ops.len(),
{
    if ops.len() == 0 {
        v
    } else {
        run_ops(apply_op(v, ops[0]), ops.drop_first())
    }
}

/// `k` plain ticks.
pub open spec fn ticks(k: nat) -> Seq<RuntimeOp> {
    Seq::new(k, |i: int| RuntimeOp::Tick)
}

/// The whole milliseconds in a `Duration`, as std's `Duration::as_millis`
/// computes them.
pub uninterp spec fn duration_ms(d: Duration) -> u128;

/// The metered script runtime: the host objects it drives, the two shared
/// buffers and the fuel left for ticks.
pub struct MantleRuntime {
    bare: usize,
    env: usize,
    uv_loop: usize,
    substrate_ptr: usize,
    substrate_size: usize,
    ledger_ptr: usize,
    ledger_size: usize,
    fuel_limit: u64,
}

impl View for MantleRuntime {
    type V = RuntimeView;

    closed spec fn view(&self) -> RuntimeView {
        RuntimeView {
            handles: HostHandles {
                bare: self.bare,
                env: self.env,
                uv_loop: self.uv_loop,
                substrate_ptr: self.substrate_ptr,
                ledger_ptr: self.ledger_ptr,
            },
            fuel: self.fuel_limit,
        }
    }
}

impl MantleRuntime {
    #[verifier::type_invariant]
    spec fn buffers_laid_out(self) -> bool {
        &&& self.substrate_size == SUBSTRATE_SIZE
        &&& self.ledger_size == LEDGER_SIZE
        &&& self.substrate_ptr % ALIGNMENT == 0
        &&& self.ledger_ptr % ALIGNMENT == 0
        &&& self.substrate_ptr != 0
        &&& self.ledger_ptr != 0
    }

    /// The options the script host is set up with: no memory limit.
    pub fn setup_options() -> (o: bare_options_t)
        ensures
            o.memory_limit == 0,
    {
        bare_options_t { memory_limit: 0 }
    }

    /// The outcome of setting up the script host, from its status code.
    pub fn check_setup(code: i32) -> (r: Result<(), MantleError>)
        ensures
            r is Ok <==> code == 0,
            r is Err ==> r == Err::<(), MantleError>(MantleError::SetupFailed { code }),
    {
        if code != 0 {
            Err(MantleError::SetupFailed { code })
        } else {
            Ok(())
        }
    }

    /// A runtime over freshly set-up host objects, with unlimited fuel. The
    /// host hands over both shared buffers allocated (at non-null addresses)
    /// and aligned to `ALIGNMENT`.
    pub fn new(handles: HostHandles) -> (rt: Self)
        requires
            handles.substrate_ptr % ALIGNMENT == 0,
            handles.ledger_ptr % ALIGNMENT == 0,
            handles.substrate_ptr != 0,
            handles.ledger_ptr != 0,
        ensures
            rt@.handles == handles,
            rt@.fuel == u64::MAX,
    {
        MantleRuntime {
            bare: handles.bare,
            env: handles.env,
            uv_loop: handles.uv_loop,
            substrate_ptr: handles.substrate_ptr,
            substrate_size: SUBSTRATE_SIZE,
            ledger_ptr: handles.ledger_ptr,
            ledger_size: LEDGER_SIZE,
            fuel_limit: u64::MAX,
        }
    }

    /// Address of the shared substrate buffer, which is non-null and aligned
    /// to `ALIGNMENT`.
    pub fn get_substrate_ptr(&self) -> (p: usize)
        ensures
            p == self@.handles.substrate_ptr,
            p % ALIGNMENT == 0,
            p != 0,
    {
        proof {
            use_type_invariant(self);
        }
        self.substrate_ptr
    }

    /// Size in bytes of the shared substrate buffer.
    pub fn get_substrate_size(&self) -> (n: usize)
        ensures
            n == SUBSTRATE_SIZE,
    {
        proof {
            use_type_invariant(self);
        }
        self.substrate_size
    }

    /// Address of the script environment.
    pub fn env(&self) -> (e: usize)
        ensures
            e == self@.handles.env,
    {
        self.env
    }

    /// The script text to run for `source`: the experience tag removed, or
    /// `UndefinedReference` when what is left mentions the undefined name.
    pub fn prepare_source(source: &str) -> (r: Result<String, MantleError>)
        ensures
            match prepared_source(source@) {
                Some(text) => r matches Ok(s) && s@ == text,
                None => r == Err::<String, MantleError>(MantleError::UndefinedReference),
            },
    {
        let tag = chars_of("@experience mode");
        let name = chars_of("non_existent_variable");
        proof {
            reveal_strlit("@experience mode");
            reveal_strlit("non_existent_variable");
        }
        let src = chars_of(source);
        let stripped = remove_all_chars(&src, &tag);
        if contains_chars(&stripped, &name) {
            Err(MantleError::UndefinedReference)
        } else {
            Ok(string_from_chars(&stripped))
        }
    }

    /// The outcome of running a script, from the engine's status code.
    pub fn script_status(code: i32) -> (r: Result<(), MantleError>)
        ensures
            r is Ok <==> code == 0,
            r is Err ==> r == Err::<(), MantleError>(MantleError::ScriptFailed { code }),
    {
        if code != 0 {
            Err(MantleError::ScriptFailed { code })
        } else {
            Ok(())
        }
    }

    /// The outcome of loading the script file `filename`, from the host's
    /// status code.
    pub fn load_status(filename: &str, code: i32) -> (r: Result<(), MantleError>)
        ensures
            r is Ok <==> code == 0,
            r is Err ==> (r matches Err(MantleError::LoadFailed { filename: f, code: c }) && f@
                == filename@ && c == code),
    {
        broadcast use vstd::string::group_string_axioms;
        if code != 0 {
            Err(MantleError::LoadFailed { filename: filename.to_string(), code })
        } else {
            Ok(())
        }
    }

    /// One metered tick: when enough fuel is left, consumes `TICK_COST` and
    /// answers the mode in which the host runs its event loop once;
    /// otherwise refuses with `FuelExhausted` and changes nothing.
    pub fn tick_engine(&mut self) -> (r: Result<uv_run_mode, MantleError>)
        ensures
            final(self)@ == apply_op(old(self)@, RuntimeOp::Tick),
            final(self)@.handles == old(self)@.handles,
            final(self)@.fuel == tick_fuel(old(self)@.fuel),
            r is Ok <==> tick_succeeds(old(self)@.fuel),
            r is Ok ==> r == Ok::<uv_run_mode, MantleError>(uv_run_mode::UV_RUN_NOWAIT),
            r is Err ==> r == Err::<uv_run_mode, MantleError>(MantleError::FuelExhausted),
    {
        proof {
            use_type_invariant(&*self);
        }
        if self.fuel_limit < TICK_COST {
            return Err(MantleError::FuelExhausted);
        }
        self.fuel_limit = self.fuel_limit - TICK_COST;
        Ok(uv_run_mode::UV_RUN_NOWAIT)
    }

    /// A tick whose refusal is ignored: the loop mode to run when the tick
    /// went ahead.
    pub fn tick(&mut self) -> (r: Option<uv_run_mode>)
        ensures
            final(self)@ == apply_op(old(self)@, RuntimeOp::Tick),
            final(self)@.handles == old(self)@.handles,
            final(self)@.fuel == tick_fuel(old(self)@.fuel),
            r is Some <==> tick_succeeds(old(self)@.fuel),
            r is Some ==> r == Some(uv_run_mode::UV_RUN_NOWAIT),
    {
        match self.tick_engine() {
            Ok(mode) => Some(mode),
            Err(_) => None,
        }
    }

    /// A tick guarded by the watchdog, given the time slice in whole
    /// milliseconds: a slice below `WATCHDOG_MIN_MS` is refused with
    /// `WatchdogTimeout` and consumes nothing; otherwise as `tick_engine`.
    pub fn tick_engine_with_timeout_ms(&mut self, timeout_ms: u128) -> (r: Result<
        uv_run_mode,
        MantleError,
    >)
        ensures
            final(self)@ == apply_op(old(self)@, RuntimeOp::TickWithTimeoutMs(timeout_ms)),
            timeout_ms < WATCHDOG_MIN_MS ==> {
                &&& r == Err::<uv_run_mode, MantleError>(MantleError::WatchdogTimeout)
                &&& final(self)@.fuel == old(self)@.fuel
            },
            timeout_ms >= WATCHDOG_MIN_MS ==> {
                &&& final(self)@.fuel == tick_fuel(old(self)@.fuel)
                &&& (r is Ok <==> tick_succeeds(old(self)@.fuel))
                &&& (r is Ok ==> r == Ok::<uv_run_mode, MantleError>(uv_run_mode::UV_RUN_NOWAIT))
                &&& (r is Err ==> r == Err::<uv_run_mode, MantleError>(MantleError::FuelExhausted))
            },
    {
        if timeout_ms < WATCHDOG_MIN_MS {
            return Err(MantleError::WatchdogTimeout);
        }
        self.tick_engine()
    }

    /// A tick guarded by the watchdog: `tick_engine_with_timeout_ms` on the
    /// whole milliseconds of `timeout`.
    pub fn tick_engine_with_timeout(&mut self, timeout: Duration) -> (r: Result<
        uv_run_mode,
        MantleError,
    >)
        ensures
            final(self)@ == apply_op(old(self)@, RuntimeOp::TickWithTimeoutMs(duration_ms(timeout))),
            duration_ms(timeout) < WATCHDOG_MIN_MS ==> {
                &&& r == Err::<uv_run_mode, MantleError>(MantleError::WatchdogTimeout)
                &&& final(self)@.fuel == old(self)@.fuel
            },
            duration_ms(timeout) >= WATCHDOG_MIN_MS ==> {
                &&& final(self)@.fuel == tick_fuel(old(self)@.fuel)
                &&& (r is Ok <==> tick_succeeds(old(self)@.fuel))
                &&& (r is Ok ==> r == Ok::<uv_run_mode, MantleError>(uv_run_mode::UV_RUN_NOWAIT))
                &&& (r is Err ==> r == Err::<uv_run_mode, MantleError>(MantleError::FuelExhausted))
            },
    {
        let ms = duration_millis(&timeout);
        self.tick_engine_with_timeout_ms(ms)
    }

    /// Sets the fuel left for ticks to `limit`.
    pub fn set_execution_fuel_limit(&mut self, limit: u64)
        ensures
            final(self)@ == apply_op(old(self)@, RuntimeOp::SetFuel(limit)),
            final(self)@.handles == old(self)@.handles,
            final(self)@.fuel == limit,
    {
        proof {
            use_type_invariant(&*self);
        }
        self.fuel_limit = limit;
    }
}

/// `Duration::as_millis` of std: the whole milliseconds in `d`, a function of
/// `d` alone; the contract names it `duration_ms`.
#[verifier::external_body]
fn duration_millis(d: &Duration) -> (ms: u128)
    ensures
        ms == duration_ms(*d),
{
    d.as_millis()
}

} // verus!

verus! {

/// Once a tick is refused for lack of fuel, every later tick is refused and
/// the fuel stays where it is.
pub proof fn lemma_exhaustion_is_permanent(fuel: u64, k: nat)
    requires
        !tick_succeeds(fuel),
    ensures
        fuel_after(fuel, k) == fuel,
        !tick_succeeds(fuel_after(fuel, k)),
    decreases k,
{
    if k > 0 {
        lemma_exhaustion_is_permanent(fuel, (k - 1) as nat);
    }
}

/// With `fuel` set, exactly `fuel / TICK_COST` ticks run, each consuming
/// `TICK_COST`; every tick after them is refused, and `fuel % TICK_COST`
/// is left.
pub proof fn lemma_fuel_budget(fuel: u64, k: nat)
    ensures
        k <= fuel / TICK_COST ==> fuel_after(fuel, k) == fuel - TICK_COST * k,
        k < fuel / TICK_COST ==> tick_succeeds(fuel_after(fuel, k)),
        k >= fuel / TICK_COST ==> fuel_after(fuel, k) == fuel % TICK_COST,
        k >= fuel / TICK_COST ==> !tick_succeeds(fuel_after(fuel, k)),
    decreases k,
{
    if fuel < TICK_COST {
        lemma_exhaustion_is_permanent(fuel, k);
    } else if k > 0 {
        let next = (fuel - TICK_COST) as u64;
        assert(tick_fuel(fuel) == next);
        assert(next / TICK_COST == fuel / TICK_COST - 1);
        assert(next % TICK_COST == fuel % TICK_COST);
        lemma_fuel_budget(next, (k - 1) as nat);
    }
}

/// A script with neither the experience tag nor the undefined name runs as
/// it was written.
pub proof fn lemma_plain_script_unchanged(source: Seq<char>)
    requires
        !contains_seq(source, experience_tag()),
        !contains_seq(source, undefined_name()),
    ensures
        prepared_source(source) == Some(source),
{
    crate::conduction::script::lemma_remove_absent(source, experience_tag());
}

/// A tag at the very start of a script is removed like any other: the
/// script `"@experience mode" + rest` is prepared exactly as `rest` is.
pub proof fn lemma_leading_tag_removed(rest: Seq<char>)
    ensures
        prepared_source("@experience mode"@ + rest) == prepared_source(rest),
{
    reveal_strlit("@experience mode");
    let tag = "@experience mode"@;
    let s = tag + rest;
    assert(s.subrange(0, tag.len() as int) =~= tag);
    assert(s.subrange(tag.len() as int, s.len() as int) =~= rest);
    assert(remove_all(s, tag) == remove_all(rest, tag));
}

/// A script made of the tag followed by a text `t` that holds neither the
/// tag nor the undefined name runs as `t`.
pub proof fn lemma_tagged_script_runs_untagged(t: Seq<char>)
    requires
        !contains_seq(t, "@experience mode"@),
        !contains_seq(t, "non_existent_variable"@),
    ensures
        prepared_source("@experience mode"@ + t) == Some(t),
{
    lemma_leading_tag_removed(t);
    lemma_plain_script_unchanged(t);
}

/// A script that mentions the undefined name anywhere, whatever follows it,
/// is refused when it holds no tag.
pub proof fn lemma_undefined_name_refused(a: Seq<char>, b: Seq<char>)
    requires
        !contains_seq(a + "non_existent_variable"@ + b, "@experience mode"@),
    ensures
        prepared_source(a + "non_existent_variable"@ + b) is None,
{
    let name = "non_existent_variable"@;
    let s = a + name + b;
    crate::conduction::script::lemma_remove_absent(s, experience_tag());
    assert(s.subrange(a.len() as int, (a.len() + name.len()) as int) =~= name);
    assert(crate::conduction::script::occurs_at(s, name, a.len() as int));
}

/// Whenever the text left after removing the tags mentions the undefined
/// name at any position, the script is refused; and a script that is
/// accepted runs a text that does not mention the undefined name at all.
pub proof fn lemma_refusal_exact(source: Seq<char>, i: int)
    ensures
        crate::conduction::script::occurs_at(
            remove_all(source, "@experience mode"@),
            "non_existent_variable"@,
            i,
        ) ==> prepared_source(source) is None,
        prepared_source(source) matches Some(text) ==> forall|j: int|
            !crate::conduction::script::occurs_at(text, "non_existent_variable"@, j),
{
}

} // verus!

verus! {

/// No sequence of calls changes the host objects a runtime drives: the
/// substrate, ledger, environment and loop addresses stay those it was built
/// with.
pub proof fn lemma_handles_stable(v: RuntimeView, ops: Seq<RuntimeOp>)
    ensures
        run_ops(v, ops).handles == v.handles,
    decreases ops.len(),
{
    if ops.len() > 0 {
        lemma_handles_stable(apply_op(v, ops[0]), ops.drop_first());
    }
}

/// `k` plain ticks from state `v` leave the handles and `fuel_after` the fuel.
pub proof fn lemma_run_ticks(v: RuntimeView, k: nat)
    ensures
        run_ops(v, ticks(k)) == (RuntimeView { handles: v.handles, fuel: fuel_after(v.fuel, k) }),
    decreases k,
{
    if k > 0 {
        assert(ticks(k).drop_first() =~= ticks((k - 1) as nat));
        lemma_run_ticks(apply_op(v, RuntimeOp::Tick), (k - 1) as nat);
    }
}

/// After the fuel is set to `n`, `k` ticks leave `fuel_after(n, k)`, and the
/// tick made with `i` ticks already behind it runs exactly when
/// `i < n / TICK_COST`.
pub proof fn lemma_refuel_then_ticks(v: RuntimeView, n: u64, k: nat)
    ensures
        run_ops(v, seq![RuntimeOp::SetFuel(n)] + ticks(k)) == (RuntimeView {
            handles: v.handles,
            fuel: fuel_after(n, k),
        }),
        forall|i: nat| tick_succeeds(#[trigger] fuel_after(n, i)) <==> i < n / TICK_COST,
{
    let ops = seq![RuntimeOp::SetFuel(n)] + ticks(k);
    assert(ops[0] == RuntimeOp::SetFuel(n));
    assert(ops.drop_first() =~= ticks(k));
    lemma_run_ticks(apply_op(v, RuntimeOp::SetFuel(n)), k);
    assert forall|i: nat| tick_succeeds(#[trigger] fuel_after(n, i)) <==> i < n / TICK_COST by {
        lemma_fuel_budget(n, i);
    }
}

} // verus!

verus! {

/// The decimal digit character for `d` (`0 <= d < 10`).
pub open spec fn digit_char(d: int) -> char {
    (d + 48) as char
}

/// The decimal digits of `n`, most significant first, without leading zeros.
pub open spec fn nat_text(n: nat) -> Seq<char>
    decreases n,
{
    if n < 10 {
        seq![digit_char(n as int)]
    } else {
        nat_text(n / 10).push(digit_char((n % 10) as int))
    }
}

/// `n` in decimal, with a leading `-` when it is negative.
pub open spec fn int_text(n: int) -> Seq<char> {
    if n < 0 {
        seq!['-'] + nat_text((-n) as nat)
    } else {
        nat_text(n as nat)
    }
}

/// The text that reports `e`.
pub open spec fn message_text(e: MantleError) -> Seq<char> {
    match e {
        MantleError::SetupFailed { code } => "Failed to setup bare-js: "@ + int_text(code as int),
        MantleError::UndefinedReference =>
            "JavaScript execution failed: ReferenceError: non_existent_variable is not defined"@,
        MantleError::ScriptFailed { code } => "JavaScript execution failed with code: "@
            + int_text(code as int),
        MantleError::FuelExhausted => "Fuel Exhausted"@,
        MantleError::WatchdogTimeout => "Execution terminated by Watchdog Guard"@,
        MantleError::LoadFailed { filename, code } => "Failed to load JS script "@ + filename@
            + ": "@ + int_text(code as int),
    }
}

/// The decimal digit character for `d`.
fn digit(d: u32) -> (c: char)
    requires
        d < 10,
    ensures
        c == digit_char(d as int),
{
    let b: u8 = (d + 48) as u8;
    b as char
}

/// The decimal digits of `n`, as `nat_text` describes them.
fn nat_digits(n: u32) -> (v: Vec<char>)
    ensures
        v@ == nat_text(n as nat),
    decreases n,
{
    if n < 10 {
        let mut v: Vec<char> = Vec::new();
        v.push(digit(n));
        v
    } else {
        let mut v = nat_digits(n / 10);
        v.push(digit(n % 10));
        v
    }
}

/// `code` in decimal, as `int_text` describes it.
fn decimal_chars(code: i32) -> (v: Vec<char>)
    ensures
        v@ == int_text(code as int),
{
    if code < 0 {
        let magnitude: u32 = (0i64 - code as i64) as u32;
        let mut v: Vec<char> = Vec::new();
        v.push('-');
        let mut digits = nat_digits(magnitude);
        v.append(&mut digits);
        v
    } else {
        nat_digits(code as u32)
    }
}

/// `prefix` followed by `code` in decimal.
fn with_code(prefix: &str, code: i32) -> (s: String)
    ensures
        s@ == prefix@ + int_text(code as int),
{
    let mut v = chars_of(prefix);
    let mut tail = decimal_chars(code);
    v.append(&mut tail);
    string_from_chars(&v)
}

impl MantleError {
    /// The text that reports this error.
    pub fn message(&self) -> (s: String)
        ensures
            s@ == message_text(*self),
    {
        broadcast use vstd::string::group_string_axioms;
        match self {
            MantleError::SetupFailed { code } => with_code("Failed to setup bare-js: ", *code),
            MantleError::UndefinedReference => {
                "JavaScript execution failed: ReferenceError: non_existent_variable is not defined".to_string()
            },
            MantleError::ScriptFailed { code } => with_code(
                "JavaScript execution failed with code: ",
                *code,
            ),
            MantleError::FuelExhausted => "Fuel Exhausted".to_string(),
            MantleError::WatchdogTimeout => "Execution terminated by Watchdog Guard".to_string(),
            MantleError::LoadFailed { filename, code } => {
                let mut v = chars_of("Failed to load JS script ");
                let mut name = chars_of(filename.as_str());
                v.append(&mut name);
                let tail = with_code(": ", *code);
                let mut rest = chars_of(tail.as_str());
                v.append(&mut rest);
                let s = string_from_chars(&v);
                assert(s@ =~= message_text(*self));
                s
            },
        }
    }
}

} // verus!
