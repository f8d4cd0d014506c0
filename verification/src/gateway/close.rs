//! What the end of a connection means for the session.
//!
//! Which close code means what is the service's policy, and the service may
//! add codes. So the classification is a table that its user can change, not
//! a fixed rule.

use vstd::prelude::*;

verus! {

/// What a closed connection allows.
#[derive(Clone, Copy, Debug, PartialEq, Eq, Structural, Hash)]
pub enum CloseClass {
    /// Reconnect and take the session up again.
    Resumable,
    /// Reconnect; the session is gone, so identify anew.
    NonResumable,
    /// Do not reconnect: the service will refuse again.
    Fatal,
}

/// One line of the table: what a close code means.
#[derive(Clone, Copy, Debug, PartialEq, Eq, Structural, Hash)]
pub struct CloseRule {
    pub code: u16,
    pub class: CloseClass,
}

/// A classification table, as mathematical values.
pub struct PolicyTable {
    /// What a code means that no rule names.
    pub fallback: CloseClass,
    /// The rules, oldest first.
    pub rules: Seq<CloseRule>,
}

impl PolicyTable {
    /// What a close code means: what the newest rule for it says, and the
    /// fallback where there is none.
    pub open spec fn classify(self, code: u16) -> CloseClass
        decreases self.rules.len(),
    {
        if self.rules.len() == 0 {
            self.fallback
        } else if self.rules.last().code == code {
            self.rules.last().class
        } else {
            (PolicyTable { rules: self.rules.drop_last(), ..self }).classify(code)
        }
    }

    /// What the end of a connection means. A connection that ended without
    /// a close code was cut, not refused: the session can be taken up again.
    pub open spec fn classify_close(self, code: Option<u16>) -> CloseClass {
        match code {
            Some(code) => self.classify(code),
            None => CloseClass::Resumable,
        }
    }
}

/// What the usual table says of a close code: the service will not have a
/// client back that failed to authenticate, named a shard it may not have,
/// spoke a version or asked for intents it may not use; it ends the session
/// of a client that left in good order, sent a sequence number it never got
/// or stayed silent too long; anything else interrupts the session only.
pub open spec fn standard_class(code: u16) -> CloseClass {
    if code == 4004 || code == 4010 || code == 4011 || code == 4012 || code == 4013 || code
        == 4014 {
        CloseClass::Fatal
    } else if code == 1000 || code == 1001 || code == 4007 || code == 4009 {
        CloseClass::NonResumable
    } else {
        CloseClass::Resumable
    }
}

/// The table that classifies close codes.
pub struct ClosePolicy {
    fallback: CloseClass,
    rules: Vec<CloseRule>,
}

impl View for ClosePolicy {
    type V = PolicyTable;

    closed spec fn view(&self) -> PolicyTable {
        PolicyTable { fallback: self.fallback, rules: self.rules@ }
    }
}

impl ClosePolicy {
    /// A table without rules: every code means `fallback`.
    pub fn new(fallback: CloseClass) -> (policy: Self)
        ensures
            policy@ == (PolicyTable { fallback, rules: Seq::empty() }),
            forall|code: u16| #[trigger] policy@.classify(code) == fallback,
    {
        ClosePolicy { fallback, rules: Vec::new() }
    }

    /// The usual table, as [`standard_class`] describes it.
    pub fn standard() -> (policy: Self)
        ensures
            forall|code: u16| #[trigger] policy@.classify(code) == standard_class(code),
    {
        let mut policy = ClosePolicy::new(CloseClass::Resumable);
        policy.set(1000, CloseClass::NonResumable);
        policy.set(1001, CloseClass::NonResumable);
        policy.set(4004, CloseClass::Fatal);
        policy.set(4007, CloseClass::NonResumable);
        policy.set(4009, CloseClass::NonResumable);
        policy.set(4010, CloseClass::Fatal);
        policy.set(4011, CloseClass::Fatal);
        policy.set(4012, CloseClass::Fatal);
        policy.set(4013, CloseClass::Fatal);
        policy.set(4014, CloseClass::Fatal);
        policy
    }

    /// Rules that `code` means `class` from now on. What other codes mean
    /// stays as it is.
    pub fn set(&mut self, code: u16, class: CloseClass)
        ensures
            final(self)@ == (PolicyTable {
                rules: old(self)@.rules.push(CloseRule { code, class }),
                ..old(self)@
            }),
            forall|other: u16| #[trigger]
                final(self)@.classify(other) == if other == code {
                    class
                } else {
                    old(self)@.classify(other)
                },
    {
        self.rules.push(CloseRule { code, class });
        proof {
            let after = self@;
            assert(after.rules.drop_last() =~= old(self)@.rules);
            assert((PolicyTable { rules: after.rules.drop_last(), ..after }) == old(self)@);
        }
    }

    /// What the close code `code` means.
    pub fn classify(&self, code: u16) -> (class: CloseClass)
        ensures
            class == self@.classify(code),
    {
        let mut i: usize = self.rules.len();
        proof {
            assert(self.rules@.take(i as int) =~= self.rules@);
            assert((PolicyTable { rules: self.rules@.take(i as int), ..self@ }) == self@);
        }
        while i > 0
            invariant
                i <= self.rules.len(),
                self@.classify(code) == (PolicyTable {
                    rules: self.rules@.take(i as int),
                    ..self@
                }).classify(code),
            decreases i,
        {
            i -= 1;
            let rule: CloseRule = self.rules[i];
            proof {
                let upto = self.rules@.take(i + 1);
                assert(upto.last() == rule);
                assert(upto.drop_last() =~= self.rules@.take(i as int));
            }
            if rule.code == code {
                return rule.class;
            }
        }
        proof {
            assert(self.rules@.take(0).len() == 0);
        }
        self.fallback
    }

    /// What the end of a connection means, with the close code if one came.
    pub fn classify_close(&self, code: Option<u16>) -> (class: CloseClass)
        ensures
            class == self@.classify_close(code),
    {
        match code {
            Some(code) => self.classify(code),
            None => CloseClass::Resumable,
        }
    }
}

} // verus!
