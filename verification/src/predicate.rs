//! Predicates that a user supplies to select devices.
//!
//! A predicate is a closure of the user. It may be impure: asked twice about one subject it may
//! answer differently, so its specification is a relation between subjects and answers.

use vstd::prelude::*;

verus! {

/// A predicate that takes its subject by value.
pub trait Predicate<A>: Send + Sync {
    /// Whether the predicate may be asked about `subject`.
    spec fn askable(&self, subject: A) -> bool;

    /// Whether `answer` is an answer that the predicate may give on `subject`.
    spec fn may_answer(&self, subject: A, answer: bool) -> bool;

    /// Asks the predicate about `subject`.
    fn ask(&self, subject: A) -> (answer: bool)
        requires
            self.askable(subject),
        ensures
            self.may_answer(subject, answer),
    ;
}

impl<A, F: Fn(A) -> bool + Send + Sync> Predicate<A> for F {
    open spec fn askable(&self, subject: A) -> bool {
        call_requires(*self, (subject,))
    }

    open spec fn may_answer(&self, subject: A, answer: bool) -> bool {
        call_ensures(*self, (subject,), answer)
    }

    fn ask(&self, subject: A) -> (answer: bool) {
        self(subject)
    }
}

/// A predicate that looks at its subject through a reference.
pub trait RefPredicate<A: ?Sized>: Send + Sync {
    /// Whether the predicate may be asked about `subject`.
    spec fn askable(&self, subject: &A) -> bool;

    /// Whether `answer` is an answer that the predicate may give on `subject`.
    spec fn may_answer(&self, subject: &A, answer: bool) -> bool;

    /// Asks the predicate about `subject`.
    fn ask(&self, subject: &A) -> (answer: bool)
        requires
            self.askable(subject),
        ensures
            self.may_answer(subject, answer),
    ;
}

impl<A: ?Sized, F: Fn(&A) -> bool + Send + Sync> RefPredicate<A> for F {
    open spec fn askable(&self, subject: &A) -> bool {
        call_requires(*self, (subject,))
    }

    open spec fn may_answer(&self, subject: &A, answer: bool) -> bool {
        call_ensures(*self, (subject,), answer)
    }

    fn ask(&self, subject: &A) -> (answer: bool) {
        self(subject)
    }
}

} // verus!
