//! Signals that call off a run: which come in, what is remembered of them, and how the
//! handlers that take them are put in place and taken away again.

use vstd::prelude::*;
use vstd::string::*;

use crate::model::{texts, Fault, FaultKind, Text, SIGHUP, SIGINT, SIGKILL, SIGTERM};
use crate::text::{join3, join_texts, joined};
use crate::time::{floor_sub, least, Duration};

verus! {

/// What a word says of a launch that was committed to; the signal that came is added
/// to it.
pub const COMMITTED: u32 = 2147483648;

/// Whether a signal calls off a run.
pub open spec fn calls_off(signal: i32) -> bool {
    signal == SIGINT || signal == SIGTERM || signal == SIGHUP
}

/// Whether a signal calls off a run.
pub fn is_call_off(signal: i32) -> (r: bool)
    ensures
        r == calls_off(signal),
{
    signal == SIGINT || signal == SIGTERM || signal == SIGHUP
}

/// The signal that a word remembers; zero stands for none.
pub open spec fn signal_in(word: u32) -> int {
    word as int % 2147483648
}

/// Whether a word says that a launch was committed to.
pub open spec fn is_committed(word: u32) -> bool {
    word >= COMMITTED
}

/// The word that remembers a signal as well, where none is remembered yet and this one
/// calls off a run; else `None`, and the word stays.
pub fn recorded(word: u32, signal: i32) -> (r: Option<u32>)
    ensures
        match r {
            Some(next) => calls_off(signal) && signal_in(word) == 0 && next == word + signal
                && signal_in(next) == signal && is_committed(next) == is_committed(word),
            None => !calls_off(signal) || signal_in(word) != 0,
        },
{
    if !is_call_off(signal) || word % COMMITTED != 0 {
        return None;
    }
    Some(word + signal as u32)
}

/// The signal that a word remembers.
pub fn interruption(word: u32) -> (r: Option<i32>)
    ensures
        r == if signal_in(word) == 0 {
            None
        } else {
            Some(signal_in(word) as i32)
        },
{
    let signal: u32 = word % COMMITTED;
    if signal == 0 {
        None
    } else {
        Some(signal as i32)
    }
}

/// The word after a launch was committed to. It is refused once a signal has come, and
/// once one was committed to already.
pub fn committed(word: u32) -> (r: Result<u32, Fault>)
    ensures
        r == if word == 0 {
            Ok::<u32, Fault>(COMMITTED)
        } else if signal_in(word) != 0 {
            Err(Fault::found(FaultKind::Interrupted, "launch admission refused"))
        } else {
            Err(Fault::found(FaultKind::AlreadyExists, "launch admission refused"))
        },
{
    if word == 0 {
        return Ok(COMMITTED);
    }
    Err(
        Fault::new(
            if word % COMMITTED != 0 {
                FaultKind::Interrupted
            } else {
                FaultKind::AlreadyExists
            },
            "launch admission refused",
        ),
    )
}

/// The word with which the next attempt begins: a signal that came is kept.
pub fn renewed(word: u32) -> (r: u32)
    ensures
        signal_in(r) == signal_in(word),
        !is_committed(r),
        r == signal_in(word),
{
    word % COMMITTED
}

/// What is remembered of a run's signals. Everyone who holds a run's handle shares this
/// one value, so it is neither cloned nor copied.
#[derive(Debug, PartialEq, Eq, Structural)]
pub struct Admission {
    pub word: u32,
    /// When a signal was first seen; zero stands for not yet.
    pub observed: u64,
    /// A run has made use of it.
    pub used: bool,
}

/// What a holder of a run's handle does with it: it calls the run off with a signal, or
/// makes use of the handle for a run.
pub enum Use {
    Interrupt(i32),
    Claim,
}

impl Admission {
    /// What is remembered after a use of the handle, whoever holds it: the first signal
    /// that calls off a run, and that a run has made use of it.
    pub open spec fn after(self, use_of: Use) -> Admission {
        match use_of {
            Use::Interrupt(signal) => if calls_off(signal) && signal_in(self.word) == 0 {
                Admission { word: (self.word + signal) as u32, ..self }
            } else {
                self
            },
            Use::Claim => Admission { used: true, ..self },
        }
    }

    /// What is remembered after a run of uses, each by one of the holders.
    pub open spec fn after_all(self, uses: Seq<(nat, Use)>) -> Admission
        decreases uses.len(),
    {
        if uses.len() == 0 {
            self
        } else {
            self.after_all(uses.drop_last()).after(uses.last().1)
        }
    }

    /// Nothing is remembered.
    pub fn new() -> (r: Admission)
        ensures
            r == (Admission { word: 0, observed: 0, used: false }),
    {
        Admission { word: 0, observed: 0, used: false }
    }

    /// A signal came. Only the first that calls off a run is remembered.
    pub fn record(&mut self, signal: i32)
        ensures
            *final(self) == old(self).after(Use::Interrupt(signal)),
    {
        match recorded(self.word, signal) {
            Some(word) => {
                self.word = word;
            },
            None => {},
        }
    }

    /// Remembers when a signal was first seen, and says it.
    pub fn observed_at(&mut self, now: u64) -> (r: u64)
        ensures
            r == if old(self).observed == 0 {
                now
            } else {
                old(self).observed
            },
            *final(self) == (Admission { observed: r, ..*old(self) }),
    {
        if self.observed == 0 {
            self.observed = now;
        }
        self.observed
    }

    /// Decides whether a launch may go on; where a signal came, when it was seen is
    /// remembered.
    pub fn check(&mut self, clock: Result<u64, Fault>) -> (r: Result<(), Fault>)
        ensures
            if signal_in(old(self).word) == 0 {
                r is Ok && *final(self) == *old(self)
            } else {
                match clock {
                    Err(fault) => r == Err::<(), Fault>(fault) && *final(self) == *old(self),
                    Ok(now) => r == Err::<(), Fault>(
                        Fault::found(FaultKind::Interrupted, "launch admission interrupted"),
                    ) && *final(self) == (Admission {
                        observed: if old(self).observed == 0 {
                            now
                        } else {
                            old(self).observed
                        },
                        ..*old(self)
                    }),
                }
            },
    {
        if interruption(self.word).is_none() {
            return Ok(());
        }
        match clock {
            Err(fault) => Err(fault),
            Ok(now) => {
                self.observed_at(now);
                Err(Fault::new(FaultKind::Interrupted, "launch admission interrupted"))
            },
        }
    }

    /// Commits to a launch.
    pub fn commit(&mut self) -> (r: Result<(), Fault>)
        ensures
            if old(self).word == 0 {
                r is Ok && *final(self) == (Admission { word: COMMITTED, ..*old(self) })
            } else {
                *final(self) == *old(self) && r == Err::<(), Fault>(
                    Fault::found(
                        if signal_in(old(self).word) != 0 {
                            FaultKind::Interrupted
                        } else {
                            FaultKind::AlreadyExists
                        },
                        "launch admission refused",
                    ),
                )
            },
    {
        match committed(self.word) {
            Ok(word) => {
                self.word = word;
                Ok(())
            },
            Err(fault) => Err(fault),
        }
    }

    /// Begins the next attempt.
    pub fn next_attempt(&mut self)
        ensures
            *final(self) == (Admission { word: signal_in(old(self).word) as u32, ..*old(self) }),
    {
        self.word = renewed(self.word);
    }

    /// A run makes use of what is remembered; only one ever does.
    pub fn claim(&mut self) -> (r: Result<(), Fault>)
        ensures
            *final(self) == old(self).after(Use::Claim),
            r == if old(self).used {
                Err::<(), Fault>(
                    Fault::found(
                        FaultKind::Other,
                        "cancellation handle has already been used by an execution context",
                    ),
                )
            } else {
                Ok(())
            },
    {
        if self.used {
            return Err(
                Fault::new(
                    FaultKind::Other,
                    "cancellation handle has already been used by an execution context",
                ),
            );
        }
        self.used = true;
        Ok(())
    }
}

/// Calls off one run on the host's behalf. The host's holders share one handle.
#[derive(Debug, PartialEq, Eq, Structural)]
pub struct CancellationHandle {
    pub admission: Admission,
}

impl CancellationHandle {
    /// A handle that no run has made use of.
    pub fn new() -> (r: CancellationHandle)
        ensures
            r.admission == (Admission { word: 0, observed: 0, used: false }),
    {
        CancellationHandle { admission: Admission::new() }
    }

    /// Calls the run off with a signal. Only the first one counts.
    pub fn interrupt(&mut self, signal: i32) -> (r: Result<(), Fault>)
        ensures
            if calls_off(signal) {
                r is Ok
            } else {
                r == Err::<(), Fault>(
                    Fault::found(FaultKind::InvalidInput, "unsupported interruption signal"),
                )
            },
            final(self).admission == old(self).admission.after(Use::Interrupt(signal)),
    {
        if !is_call_off(signal) {
            return Err(Fault::new(FaultKind::InvalidInput, "unsupported interruption signal"));
        }
        self.admission.record(signal);
        Ok(())
    }
}

impl Default for CancellationHandle {
    fn default() -> (r: CancellationHandle)
        ensures
            r.admission == (Admission { word: 0, observed: 0, used: false }),
    {
        CancellationHandle::new()
    }
}

/// The first signal with which any holder calls off a run is what every holder sees from
/// then on.
pub proof fn holders_share_the_first_signal(start: Admission, uses: Seq<(nat, Use)>, at: int)
    requires
        signal_in(start.word) == 0,
        0 <= at < uses.len(),
        uses[at].1 matches Use::Interrupt(signal) && calls_off(signal),
        forall|k: int|
            0 <= k < at ==> !((#[trigger] uses[k]).1 matches Use::Interrupt(signal) && calls_off(
                signal,
            )),
    ensures
        uses[at].1 matches Use::Interrupt(signal) && signal_in(start.after_all(uses).word)
            == signal,
    decreases uses.len(),
{
    let before = uses.drop_last();
    if at < uses.len() - 1 {
        holders_share_the_first_signal(start, before, at);
    } else {
        nothing_called_off(start, before);
    }
}

/// Nothing is remembered where no holder called off the run.
proof fn nothing_called_off(start: Admission, uses: Seq<(nat, Use)>)
    requires
        signal_in(start.word) == 0,
        forall|k: int|
            0 <= k < uses.len() ==> !((#[trigger] uses[k]).1 matches Use::Interrupt(signal)
                && calls_off(signal)),
    ensures
        start.after_all(uses).word == start.word,
    decreases uses.len(),
{
    if uses.len() > 0 {
        nothing_called_off(start, uses.drop_last());
        assert(uses.last() == uses[uses.len() - 1]);
    }
}

/// Once one holder's run has made use of a handle, every later one is refused.
pub proof fn handles_serve_one_run(start: Admission, uses: Seq<(nat, Use)>, at: int)
    requires
        0 <= at < uses.len(),
        uses[at].1 is Claim,
    ensures
        start.after_all(uses).used,
    decreases uses.len(),
{
    if at < uses.len() - 1 {
        handles_serve_one_run(start, uses.drop_last(), at);
    }
}

/// What happens to a word: a signal comes, a launch is committed to, or the next
/// attempt begins.
pub enum Event {
    Signal(i32),
    Commit,
    Next,
}

/// The signal and the commitment that are remembered after an event.
pub open spec fn stepped(signal: int, commitment: bool, event: Event) -> (int, bool) {
    match event {
        Event::Signal(came) => (
            if calls_off(came) && signal == 0 {
                came as int
            } else {
                signal
            },
            commitment,
        ),
        Event::Commit => (signal, commitment || signal == 0),
        Event::Next => (signal, false),
    }
}

/// The signal and the commitment that are remembered after a run of events.
pub open spec fn history(signal: int, commitment: bool, events: Seq<Event>) -> (int, bool)
    decreases events.len(),
{
    if events.len() == 0 {
        (signal, commitment)
    } else {
        let before = history(signal, commitment, events.drop_last());
        stepped(before.0, before.1, events.last())
    }
}

/// The steps on words are the steps on what they remember.
pub proof fn words_remember(word: u32, after_it: u32)
    ensures
        forall|signal: i32|
            #![trigger call_ensures(recorded, (word, signal), Some(after_it))]
            call_ensures(recorded, (word, signal), Some(after_it)) ==> (
            signal_in(after_it),
            is_committed(after_it),
        ) == stepped(signal_in(word), is_committed(word), Event::Signal(signal)),
        call_ensures(committed, (word,), Ok::<u32, Fault>(after_it)) ==> (
            signal_in(after_it),
            is_committed(after_it),
        ) == stepped(signal_in(word), is_committed(word), Event::Commit),
        call_ensures(renewed, (word,), after_it) ==> (signal_in(after_it), is_committed(after_it))
            == stepped(signal_in(word), is_committed(word), Event::Next),
{
}

/// The first signal that calls off a run stays, whatever comes after it.
pub proof fn first_signal_stays(signal: int, commitment: bool, events: Seq<Event>)
    requires
        signal != 0,
    ensures
        history(signal, commitment, events).0 == signal,
    decreases events.len(),
{
    if events.len() > 0 {
        first_signal_stays(signal, commitment, events.drop_last());
    }
}

/// No launch is committed to once a signal has come, and none twice in one attempt.
pub proof fn commitments_are_single(word: u32)
    requires
        word != 0,
    ensures
        forall|r: Result<u32, Fault>|
            #![trigger call_ensures(committed, (word,), r)]
            call_ensures(committed, (word,), r) ==> r is Err,
{
}

/// The highest number of a signal whose disposition is looked at.
pub const LAST_SIGNAL: usize = 31;

/// The number of the signal that stops a process on macOS.
pub const SIGSTOP: i32 = 17;

/// What a caller lets its children inherit: the mask of blocked signals and the signals
/// it ignores.
#[derive(Debug)]
pub struct CallerSignalSnapshot {
    pub mask: u32,
    pub ignored: Vec<i32>,
}

/// The ignored ones of the first signals, in order. Two cannot be ignored and are
/// passed over.
pub open spec fn ignored_in(readings: Seq<bool>) -> Seq<i32>
    decreases readings.len(),
{
    if readings.len() == 0 {
        Seq::empty()
    } else {
        let before = ignored_in(readings.drop_last());
        let signal = readings.len() as i32;
        if readings.last() && signal != SIGKILL && signal != SIGSTOP {
            before.push(signal)
        } else {
            before
        }
    }
}

impl CallerSignalSnapshot {
    /// The snapshot of a caller; `readings` tells of each signal, from the first on,
    /// whether it is ignored.
    pub fn capture(mask: Result<u32, Fault>, readings: &[bool]) -> (r: Result<
        CallerSignalSnapshot,
        Fault,
    >)
        requires
            readings.len() <= LAST_SIGNAL,
        ensures
            match mask {
                Err(fault) => r == Err::<CallerSignalSnapshot, Fault>(fault),
                Ok(blocked) => r matches Ok(snapshot) && snapshot.mask == blocked
                    && snapshot.ignored@ == ignored_in(readings@),
            },
    {
        let mask: u32 = match mask {
            Ok(mask) => mask,
            Err(fault) => {
                return Err(fault);
            },
        };
        let mut ignored: Vec<i32> = Vec::new();
        let mut i: usize = 0;
        while i < readings.len()
            invariant
                i <= readings.len() <= LAST_SIGNAL,
                ignored@ == ignored_in(readings@.take(i as int)),
            decreases readings.len() - i,
        {
            let signal: i32 = i as i32 + 1;
            if readings[i] && signal != SIGKILL && signal != SIGSTOP {
                ignored.push(signal);
            }
            i += 1;
            assert(readings@.take(i as int).drop_last() =~= readings@.take(i - 1));
        }
        assert(readings@.take(i as int) =~= readings@);
        Ok(CallerSignalSnapshot { mask, ignored })
    }
}

/// The handlers that take the signals of a run.
#[derive(Debug)]
pub struct SignalSource {
    /// The signals whose handlers are in place, in the order they were put there.
    pub installed: Vec<i32>,
    /// The process's handlers are this source's.
    pub owned: bool,
}

/// The signals that are taken, in order.
pub open spec fn taken_signals() -> Seq<i32> {
    seq![SIGINT, SIGTERM, SIGHUP]
}

/// Whether no signal is pending and none was seen, no launch is committed to and no run
/// has made use of what is remembered.
pub open spec fn nothing_came(admission: Admission) -> bool {
    signal_in(admission.word) == 0 && !is_committed(admission.word) && admission.observed == 0
        && !admission.used
}

/// Whether handlers can be put in place, given whether a source holds the process's.
pub open spec fn may_install(taken: bool) -> bool {
    !taken
}

/// Whether the process's handlers are taken after a source was done with, given whether
/// that freed them.
pub open spec fn left_taken(freed: bool) -> bool {
    !freed
}

impl SignalSource {
    /// What always holds of a source: its handlers are a first part of those to be put
    /// in place.
    pub open spec fn wf(self) -> bool {
        self.installed@.len() <= 3 && self.installed@ == taken_signals().take(
            self.installed@.len() as int,
        )
    }

    /// Whether a source that is done with frees the process's handlers for the next one:
    /// only where they were its own and all were taken away.
    pub open spec fn frees(self, failures: nat) -> bool {
        self.owned && failures == 0
    }

    /// Begins to put the handlers in place, unless that was done before and not undone. What
    /// is remembered of signals begins anew: nothing that came before counts.
    pub fn install(taken: bool) -> (r: Result<(SignalSource, Admission), Fault>)
        ensures
            match r {
                Ok((source, admission)) => may_install(taken) && nothing_came(admission) && source.wf() && source.installed@.len() == 0
                    && source.owned,
                Err(fault) => !may_install(taken) && fault == Fault::found(
                    FaultKind::Other,
                    "signal session already owned or restoration failed",
                ),
            },
    {
        if taken {
            return Err(
                Fault::new(
                    FaultKind::Other,
                    "signal session already owned or restoration failed",
                ),
            );
        }
        let source = SignalSource { installed: Vec::new(), owned: true };
        assert(source.installed@ =~= taken_signals().take(0));
        Ok((source, Admission::new()))
    }

    /// A source that the host sends signals to: no handler is put in place. A handle
    /// serves one run only.
    pub fn host(cancellation: &mut CancellationHandle) -> (r: Result<SignalSource, Fault>)
        ensures
            final(cancellation).admission == old(cancellation).admission.after(Use::Claim),
            match r {
                Ok(source) => {
                    &&& !old(cancellation).admission.used
                    &&& source.wf() && source.installed@.len() == 0 && !source.owned
                },
                Err(fault) => {
                    &&& old(cancellation).admission.used
                    &&& fault == Fault::found(
                        FaultKind::Other,
                        "cancellation handle has already been used by an execution context",
                    )
                },
            },
    {
        match cancellation.admission.claim() {
            Ok(_) => {},
            Err(fault) => {
                return Err(fault);
            },
        }
        let source = SignalSource { installed: Vec::new(), owned: false };
        assert(source.installed@ =~= taken_signals().take(0));
        Ok(source)
    }

    /// The signal whose handler is put in place next.
    pub fn next(&self) -> (r: Option<i32>)
        requires
            self.wf(),
        ensures
            r == if self.installed@.len() < 3 {
                Some(taken_signals()[self.installed@.len() as int])
            } else {
                None
            },
    {
        if self.installed.len() == 0 {
            Some(SIGINT)
        } else if self.installed.len() == 1 {
            Some(SIGTERM)
        } else if self.installed.len() == 2 {
            Some(SIGHUP)
        } else {
            None
        }
    }

    /// That handler is in place.
    pub fn installed(&mut self)
        requires
            old(self).wf(),
            old(self).installed@.len() < 3,
        ensures
            final(self).wf(),
            final(self).owned == old(self).owned,
            final(self).installed@ == taken_signals().take(old(self).installed@.len() as int + 1),
    {
        match self.next() {
            Some(signal) => {
                self.installed.push(signal);
            },
            None => {},
        }
        assert(self.installed@ =~= taken_signals().take(old(self).installed@.len() as int + 1));
    }

    /// The error of a handler that could not be put in place, after those before it were
    /// taken away again, or that failed too.
    pub fn install_failed(error: Fault, rollback: Result<(), Fault>) -> (r: Fault)
        ensures
            match rollback {
                Ok(_) => r == error,
                Err(fault) => r.kind == FaultKind::Other && r.os_code is None && r.text.chars()
                    == error.text.chars() + "; signal rollback: "@ + fault.text.chars(),
            },
    {
        match rollback {
            Ok(_) => error,
            Err(fault) => {
                let first = error.text.render();
                let second = fault.text.render();
                Fault {
                    kind: FaultKind::Other,
                    os_code: None,
                    text: Text::Given(
                        join3(first.as_str(), "; signal rollback: ", second.as_str()),
                    ),
                }
            },
        }
    }

    /// The signals whose handlers are taken away, the last one first.
    pub fn restoring(&mut self) -> (r: Vec<i32>)
        requires
            old(self).wf(),
        ensures
            final(self).wf(),
            final(self).owned == old(self).owned,
            final(self).installed@.len() == 0,
            r@ == old(self).installed@.reverse(),
    {
        let ghost before = self.installed@;
        let mut out: Vec<i32> = Vec::new();
        while self.installed.len() > 0
            invariant
                self.installed@.len() <= before.len(),
                self.installed@ == before.take(self.installed@.len() as int),
                out@.len() == before.len() - self.installed@.len(),
                forall|k: int| 0 <= k < out@.len() ==> out@[k] == before[before.len() - 1 - k],
                self.owned == old(self).owned,
            decreases self.installed.len(),
        {
            match self.installed.pop() {
                Some(signal) => {
                    out.push(signal);
                },
                None => {},
            }
            assert(self.installed@ =~= before.take(self.installed@.len() as int));
        }
        assert(out@ =~= before.reverse());
        assert(self.installed@ =~= taken_signals().take(0));
        out
    }

    /// The handlers were taken away; `failures` is what went wrong. The second result
    /// tells whether the process's handlers are free again: never after a failure.
    pub fn finish(&mut self, failures: &Vec<String>) -> (r: (Result<(), Fault>, bool))
        requires
            old(self).wf(),
        ensures
            final(self).wf(),
            final(self).installed == old(self).installed,
            !final(self).owned,
            r.1 == old(self).frees(failures@.len()),
            match r.0 {
                Ok(_) => failures@.len() == 0,
                Err(fault) => failures@.len() > 0 && fault.kind == FaultKind::Other
                    && fault.os_code is None && fault.text.chars() == joined(texts(failures@), "; "@),
            },
    {
        let frees = self.owned && failures.len() == 0;
        self.owned = false;
        if failures.len() == 0 {
            return (Ok(()), frees);
        }
        (
            Err(
                Fault {
                    kind: FaultKind::Other,
                    os_code: None,
                    text: Text::Given(join_texts(failures, "; ")),
                },
            ),
            frees,
        )
    }
}

/// While a source holds the handlers, no other one can put them in place. They can be
/// put in place again once it was done with without a failure, and never after one, and
/// the new session begins with no signal pending and none seen. A source that is done
/// with again frees nothing.
pub proof fn sessions_follow_one_another(source: SignalSource, failures: nat)
    requires
        source.owned,
    ensures
        forall|r: Result<(SignalSource, Admission), Fault>| #[trigger]
            call_ensures(SignalSource::install, (true,), r) ==> r is Err,
        forall|r: Result<(SignalSource, Admission), Fault>| #[trigger]
            call_ensures(SignalSource::install, (left_taken(source.frees(failures)),), r) ==> (
            r is Ok) == (failures == 0) && (r matches Ok((again, admission)) ==> nothing_came(
                admission,
            ) && again.owned && again.installed@.len() == 0),
        !(SignalSource { owned: false, ..source }).frees(failures),
{
}

/// Where a wait for a signal stands.
#[derive(Clone, Copy, Debug, PartialEq, Eq, Structural)]
pub enum SignalWait {
    /// It is over, with or without a signal.
    Over(Option<i32>),
    /// Let the kernel wait so many milliseconds, then look again.
    Poll(i32),
}

impl SignalSource {
    /// Decides how a wait for a signal goes on: a signal that came ends it, as does the
    /// deadline; else the kernel waits, ten milliseconds at most.
    pub fn wait(taken: Option<i32>, now: Duration, deadline: Duration) -> (r: SignalWait)
        ensures
            match taken {
                Some(signal) => r == SignalWait::Over(Some(signal)),
                None => if floor_sub(deadline@, now@) == 0 {
                    r == SignalWait::Over(None)
                } else {
                    r == SignalWait::Poll(
                        least(10, floor_sub(deadline@, now@) / 1_000_000) as i32,
                    )
                },
            },
    {
        if taken.is_some() {
            return SignalWait::Over(taken);
        }
        let left = deadline.saturating_sub(now);
        if left.is_zero() {
            return SignalWait::Over(None);
        }
        let millis: u128 = left.as_millis();
        SignalWait::Poll(
            if millis < 10 {
                millis as i32
            } else {
                10
            },
        )
    }

    /// The signal that came, and the word that is left. A run that calls itself off for
    /// a signal sees it from then on; elsewhere a signal is seen once.
    pub fn take(sticky: bool, word: u32) -> (r: (Option<i32>, u32))
        ensures
            r.0 == if signal_in(word) == 0 {
                None
            } else {
                Some(signal_in(word) as i32)
            },
            r.1 == if sticky {
                word
            } else {
                0
            },
    {
        (
            interruption(word),
            if sticky {
                word
            } else {
                0
            },
        )
    }
}

/// Decides whether a wait of the kernel that failed ends the wait for a signal: one that
/// a signal cut short does not.
pub fn poll_failed(fault: Fault) -> (r: Result<(), Fault>)
    ensures
        r == if fault.kind == FaultKind::Interrupted {
            Ok::<(), Fault>(())
        } else {
            Err(fault)
        },
{
    match fault.kind {
        FaultKind::Interrupted => Ok(()),
        _ => Err(fault),
    }
}

} // verus!
