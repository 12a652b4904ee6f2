//! Manual focus: the focus client turns key presses into signals sent to the
//! daemon, the daemon's signal handler counts them per direction, and each
//! captured frame first drives the lens by the counted steps.

use vstd::prelude::*;

verus! {

/// The direction in which the lens is driven.
#[derive(Debug, Clone, Copy, PartialEq, Eq, Structural)]
pub enum FocusDirection {
    Near,
    Far,
}

/// What the focus client does with a key press.
#[derive(Debug, Clone, Copy, PartialEq, Eq, Structural)]
pub enum KeyAction {
    /// Ask the daemon for one focus step in this direction.
    Drive(FocusDirection),
    /// Leave the client (Ctrl-C, which the raw terminal delivers as `'\x03'`).
    Quit,
    /// Any other key.
    Ignore,
}

/// The two signal numbers that carry focus requests: `near` asks for a step
/// nearer, `far` for a step farther.
#[derive(Debug, Clone, Copy, PartialEq, Eq, Structural)]
pub struct FocusSignals {
    pub near: i32,
    pub far: i32,
}

/// Reads `libc::SIGUSR1` and `libc::SIGUSR2`. Claims, as libc's source shows
/// for every target it defines them on, that the two are positive and
/// differ; their exact values vary by target and are left unsaid.
#[verifier::external_body]
fn user_signal_numbers() -> (r: (i32, i32))
    ensures
        r.0 > 0,
        r.1 > 0,
        r.0 != r.1,
{
    (libc::SIGUSR1, libc::SIGUSR2)
}

/// The focus requests counted since the lens was last driven: nearer and
/// farther steps. The daemon's signal handler bumps them (wrapping), and each
/// captured frame takes them all.
#[derive(Debug, Clone, Copy, PartialEq, Eq, Structural)]
pub struct FocusRequests {
    pub near: i32,
    pub far: i32,
}

impl FocusSignals {
    /// The focus signals of this system: `SIGUSR1` for nearer, `SIGUSR2`
    /// for farther.
    pub fn system() -> (s: FocusSignals)
        ensures
            s.near > 0,
            s.far > 0,
            s.near != s.far,
    {
        let (near, far) = user_signal_numbers();
        FocusSignals { near, far }
    }
}

pub open spec fn key_action(key: char) -> KeyAction {
    if key == '+' {
        KeyAction::Drive(FocusDirection::Near)
    } else if key == '-' {
        KeyAction::Drive(FocusDirection::Far)
    } else if key == '\x03' {
        KeyAction::Quit
    } else {
        KeyAction::Ignore
    }
}

pub open spec fn signal_for(signals: FocusSignals, dir: FocusDirection) -> i32 {
    match dir {
        FocusDirection::Near => signals.near,
        FocusDirection::Far => signals.far,
    }
}

pub open spec fn direction_for(signals: FocusSignals, sig: i32) -> FocusDirection {
    if sig == signals.near {
        FocusDirection::Near
    } else {
        FocusDirection::Far
    }
}

/// The number of steps a request counter asks for: a counter that has
/// wrapped below zero asks for none.
pub open spec fn steps(count: i32) -> nat {
    if count > 0 {
        count as nat
    } else {
        0
    }
}

/// The drive commands for the counted requests: all nearer steps, then all
/// farther steps.
pub open spec fn drive_plan(near: i32, far: i32) -> Seq<FocusDirection> {
    Seq::new(steps(near), |i: int| FocusDirection::Near) + Seq::new(
        steps(far),
        |i: int| FocusDirection::Far,
    )
}

/// The focus client's reading of a key: `+` nearer, `-` farther, Ctrl-C
/// quits, anything else is ignored.
pub fn focus_key_action(key: char) -> (a: KeyAction)
    ensures
        a == key_action(key),
        a == KeyAction::Quit <==> key == '\x03',
        a == KeyAction::Drive(FocusDirection::Near) <==> key == '+',
        a == KeyAction::Drive(FocusDirection::Far) <==> key == '-',
        a == KeyAction::Ignore <==> (key != '+' && key != '-' && key != '\x03'),
{
    if key == '+' {
        KeyAction::Drive(FocusDirection::Near)
    } else if key == '-' {
        KeyAction::Drive(FocusDirection::Far)
    } else if key == '\x03' {
        KeyAction::Quit
    } else {
        KeyAction::Ignore
    }
}

/// The signal the focus client sends to the daemon for a step in `dir`.
pub fn focus_signal(signals: &FocusSignals, dir: FocusDirection) -> (sig: i32)
    ensures
        sig == signal_for(*signals, dir),
        dir == FocusDirection::Near ==> sig == signals.near,
        dir == FocusDirection::Far ==> sig == signals.far,
{
    match dir {
        FocusDirection::Near => signals.near,
        FocusDirection::Far => signals.far,
    }
}

/// The daemon's signal handler: the counter that signal `sig` bumps. The
/// near signal asks for a nearer step; the handler is installed for the two
/// focus signals only, and counts any other as farther.
pub fn handle_focus_signal(signals: &FocusSignals, sig: i32) -> (d: FocusDirection)
    ensures
        d == direction_for(*signals, sig),
        d == FocusDirection::Near <==> sig == signals.near,
{
    if sig == signals.near {
        FocusDirection::Near
    } else {
        FocusDirection::Far
    }
}

/// The camera's `manualfocusdrive` choice for one step in `dir`.
pub fn focus_choice(dir: FocusDirection) -> (choice: &'static str)
    ensures
        dir == FocusDirection::Near ==> choice@ == "Near 1"@,
        dir == FocusDirection::Far ==> choice@ == "Far 1"@,
{
    match dir {
        FocusDirection::Near => "Near 1",
        FocusDirection::Far => "Far 1",
    }
}

/// The drive commands for `near` nearer and `far` farther requests taken
/// from the counters, in the order the lens is driven.
pub fn focus_drive_plan(near: i32, far: i32) -> (plan: Vec<FocusDirection>)
    ensures
        plan@ == drive_plan(near, far),
        plan@.len() == (if near > 0 {
            near as int
        } else {
            0
        }) + (if far > 0 {
            far as int
        } else {
            0
        }),
        forall|i: int|
            0 <= i < plan@.len() ==> #[trigger] plan@[i] == (if i < near {
                FocusDirection::Near
            } else {
                FocusDirection::Far
            }),
{
    let mut plan: Vec<FocusDirection> = Vec::new();
    let mut i: i32 = 0;
    while i < near
        invariant
            0 <= i,
            near > 0 ==> i <= near,
            near <= 0 ==> i == 0,
            plan@ == Seq::new(i as nat, |j: int| FocusDirection::Near),
        decreases near - i,
    {
        plan.push(FocusDirection::Near);
        i = i + 1;
        assert(plan@ =~= Seq::new(i as nat, |j: int| FocusDirection::Near));
    }
    assert(plan@ =~= Seq::new(steps(near), |j: int| FocusDirection::Near));
    let ghost nears = plan@;
    let mut k: i32 = 0;
    while k < far
        invariant
            0 <= k,
            far > 0 ==> k <= far,
            far <= 0 ==> k == 0,
            plan@ == nears + Seq::new(k as nat, |j: int| FocusDirection::Far),
        decreases far - k,
    {
        plan.push(FocusDirection::Far);
        k = k + 1;
        assert(plan@ =~= nears + Seq::new(k as nat, |j: int| FocusDirection::Far));
    }
    assert(plan@ =~= drive_plan(near, far));
    plan
}

/// Only Ctrl-C leaves the focus client; `+` and `-` are the only keys that
/// drive the focus, nearer and farther; every other key is ignored.
pub proof fn lemma_key_actions(key: char)
    ensures
        key_action(key) == KeyAction::Quit <==> key == '\x03',
        key_action(key) == KeyAction::Drive(FocusDirection::Near) <==> key == '+',
        key_action(key) == KeyAction::Drive(FocusDirection::Far) <==> key == '-',
        key_action(key) == KeyAction::Ignore <==> (key != '+' && key != '-' && key != '\x03'),
{
}

/// The drive plan for counted requests holds one nearer step per nearer
/// request, then one farther step per farther request, and nothing else; a
/// counter below zero asks for no steps.
pub proof fn lemma_drive_plan_steps(near: i32, far: i32)
    ensures
        drive_plan(near, far).len() == (if near > 0 {
            near as int
        } else {
            0
        }) + (if far > 0 {
            far as int
        } else {
            0
        }),
        forall|i: int|
            0 <= i < drive_plan(near, far).len() ==> #[trigger] drive_plan(near, far)[i] == (if i
                < near {
                FocusDirection::Near
            } else {
                FocusDirection::Far
            }),
{
}

/// A focus request survives the trip from client to daemon: the signal the
/// client sends for a direction is counted by the daemon's handler for that
/// same direction.
pub proof fn lemma_focus_signal_round_trip(signals: FocusSignals, dir: FocusDirection)
    requires
        signals.near != signals.far,
    ensures
        direction_for(signals, signal_for(signals, dir)) == dir,
{
}

} // verus!
