use vstd::prelude::*;

verus! {

/// The process-wide one-shot latch that guards listener attachment.
///
/// The latch starts out not attached and moves to attached at most once,
/// permanently: there is no other transition and no reset. Its lifetime is
/// meant to equal the process lifetime; the caller that owns it decides, by
/// [`ListenerGuard::try_acquire`], whether it is the one caller that performs
/// the attachment.
pub struct ListenerGuard {
    attached: bool,
}

impl ListenerGuard {
    /// Whether the one-time change listener has already been attached.
    pub closed spec fn is_attached(self) -> bool {
        self.attached
    }

    /// Whether an acquisition attempt on this state is granted, that is,
    /// obliges the caller to perform the attachment now.
    pub open spec fn grants(self) -> bool {
        !self.is_attached()
    }

    /// The latch state after one acquisition attempt: attached, whatever it
    /// was before.
    pub closed spec fn stepped(self) -> ListenerGuard {
        ListenerGuard { attached: true }
    }

    /// The latch state after `n` acquisition attempts.
    pub open spec fn after_attempts(self, n: nat) -> ListenerGuard
        decreases n,
    {
        if n == 0 {
            self
        } else {
            self.after_attempts((n - 1) as nat).stepped()
        }
    }

    /// How many of the first `n` acquisition attempts are granted.
    pub open spec fn granted_count(self, n: nat) -> nat
        decreases n,
    {
        if n == 0 {
            0
        } else {
            self.granted_count((n - 1) as nat) + (if self.after_attempts(
                (n - 1) as nat,
            ).grants() {
                1nat
            } else {
                0nat
            })
        }
    }

    /// A fresh latch, as at process start: not attached.
    pub fn new() -> (r: ListenerGuard)
        ensures
            !r.is_attached(),
    {
        ListenerGuard { attached: false }
    }

    /// One acquisition attempt on the latch. Returns whether the caller must
    /// perform the one-time attachment now: true exactly when the latch had
    /// not been acquired before. Afterwards the latch is attached, permanently.
    pub fn try_acquire(&mut self) -> (r: bool)
        ensures
            r == old(self).grants(),
            *final(self) == old(self).stepped(),
            final(self).is_attached(),
    {
        let first = !self.attached;
        self.attached = true;
        first
    }

    /// Law: once the latch has been through at least one acquisition attempt
    /// it is attached, so no later attempt is granted.
    pub proof fn lemma_attached_after(self, n: nat)
        requires
            n >= 1,
        ensures
            self.after_attempts(n).is_attached(),
            !self.after_attempts(n).grants(),
    {
    }

    /// Law: starting from a fresh latch, any number `n >= 1` of acquisition
    /// attempts grants the attachment exactly once — the change listener is
    /// attached exactly once however often the value is read.
    pub proof fn lemma_attach_exactly_once(self, n: nat)
        requires
            !self.is_attached(),
            n >= 1,
        ensures
            self.granted_count(n) == 1,
        decreases n,
    {
        if n == 1 {
            assert(self.granted_count(0) == 0);
        } else {
            self.lemma_attach_exactly_once((n - 1) as nat);
            self.lemma_attached_after((n - 1) as nat);
            assert(self.granted_count(n) == self.granted_count((n - 1) as nat));
        }
    }
}

} // verus!
