use vstd::prelude::*;

verus! {

/// The change signature of an artifact: its modification time since the
/// Unix epoch.
#[derive(Clone, Copy, Debug, PartialEq, Eq, Structural)]
pub struct Signature {
    pub secs: u64,
    pub nanos: u32,
}

/// Whether an observation reports a change against the stored signature:
/// only a readable signature that differs from the stored one does. An
/// unreadable artifact (`None`) never does.
pub open spec fn reports_change(last: Option<Signature>, current: Option<Signature>) -> bool {
    match current {
        Some(s) => last != Some(s),
        None => false,
    }
}

/// The stored signature after an observation: the observed one exactly
/// when a change was reported.
pub open spec fn after_observation(last: Option<Signature>, current: Option<Signature>) -> Option<
    Signature,
> {
    if reports_change(last, current) {
        current
    } else {
        last
    }
}

/// Watches one artifact by its signature and reports each change once.
pub struct ChangeDetector {
    last: Option<Signature>,
}

impl View for ChangeDetector {
    type V = Option<Signature>;

    closed spec fn view(&self) -> Option<Signature> {
        self.last
    }
}

impl ChangeDetector {
    /// A detector that starts from the signature observed at start-up
    /// (`None` when the artifact could not be read then).
    pub fn new(initial: Option<Signature>) -> (r: ChangeDetector)
        ensures
            r@ == initial,
    {
        ChangeDetector { last: initial }
    }

    /// Compares the artifact's current signature (`None` when it could not
    /// be read) with the stored one; reports a change and stores the new
    /// signature exactly when they differ.
    pub fn changed(&mut self, current: Option<Signature>) -> (r: bool)
        ensures
            r == reports_change(old(self)@, current),
            final(self)@ == after_observation(old(self)@, current),
    {
        match current {
            None => false,
            Some(s) => {
                let same = match self.last {
                    Some(l) => l == s,
                    None => false,
                };
                if same {
                    false
                } else {
                    self.last = Some(s);
                    true
                }
            },
        }
    }

    /// The signature stored by the last reported change.
    pub fn last_signature(&self) -> (r: Option<Signature>)
        ensures
            r == self@,
    {
        self.last
    }
}

/// An artifact whose signature was updated once between two observations
/// is reported changed by the first and unchanged by the second.
pub proof fn lemma_change_reported_once(last: Option<Signature>, s: Signature)
    requires
        last != Some(s),
    ensures
        reports_change(last, Some(s)),
        !reports_change(after_observation(last, Some(s)), Some(s)),
{
}

/// A signature is never reported twice in a row: observing the same
/// signature again reports no change, whatever came before.
pub proof fn lemma_repeat_observation_is_quiet(last: Option<Signature>, current: Option<Signature>)
    ensures
        !reports_change(after_observation(last, current), current),
        after_observation(after_observation(last, current), current) == after_observation(
            last,
            current,
        ),
{
}

} // verus!
