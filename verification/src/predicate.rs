//! Predicates for matching HTTP responses and requests.
//!
//! Besides the predicates of this module, every function from `&T` to `bool`
//! that can be copied is a [`Predicate`] on `T`.

use crate::headers::{content_type_begins, content_type_starts_with, header_entries};
use crate::message::Response;
use vstd::prelude::*;
use vstd::string::StringSliceAdditionalSpecFns;

verus! {

/// A test that a value passes or fails.
pub trait Predicate<T>: Copy {
    /// Whether the predicate can be asked about `thing`.
    spec fn applies(&self, thing: &T) -> bool;

    /// Whether `verdict` is an answer that the predicate may give on `thing`.
    spec fn may_answer(&self, thing: &T, verdict: bool) -> bool;

    /// Check if the predicate matches the given value. The predicate itself
    /// is the same afterwards.
    fn check(&mut self, thing: &T) -> (verdict: bool)
        requires
            old(self).applies(thing),
        ensures
            old(self).may_answer(thing, verdict),
            *final(self) == *old(self),
    ;
}

/// A predicate that matches based on the `Content-Type` header.
#[derive(Copy, Clone, Debug)]
pub struct ContentTypeStartsWith<Patt>(Patt);

impl<Patt: Copy> ContentTypeStartsWith<Patt> {
    /// The text that a matching content type begins with.
    pub closed spec fn pattern(&self) -> Patt {
        self.0
    }

    /// Create a new [`ContentTypeStartsWith`] predicate.
    pub fn new(pattern: Patt) -> (predicate: Self)
        ensures
            predicate.pattern() == pattern,
    {
        ContentTypeStartsWith(pattern)
    }
}

impl<'a, T> Predicate<Response<T>> for ContentTypeStartsWith<&'a str> {
    open spec fn applies(&self, response: &Response<T>) -> bool {
        true
    }

    /// The one answer is whether the first `Content-Type` value is text that
    /// begins with the pattern.
    open spec fn may_answer(&self, response: &Response<T>, verdict: bool) -> bool {
        verdict == content_type_begins(
            header_entries(response.headers),
            self.pattern().spec_bytes(),
        )
    }

    fn check(&mut self, response: &Response<T>) -> (verdict: bool) {
        content_type_starts_with(&response.headers, self.0)
    }
}

/// A predicate that matches any request or response.
#[derive(Copy, Clone, Debug)]
pub struct Always;

impl<T> Predicate<T> for Always {
    open spec fn applies(&self, thing: &T) -> bool {
        true
    }

    open spec fn may_answer(&self, thing: &T, verdict: bool) -> bool {
        verdict
    }

    fn check(&mut self, _thing: &T) -> (verdict: bool) {
        true
    }
}

impl<T, F> Predicate<T> for F where F: Fn(&T) -> bool + Copy {
    /// A function can be asked where it can be called.
    open spec fn applies(&self, thing: &T) -> bool {
        call_requires(*self, (thing,))
    }

    /// A function may answer what a call of it may return.
    open spec fn may_answer(&self, thing: &T, verdict: bool) -> bool {
        call_ensures(*self, (thing,), verdict)
    }

    fn check(&mut self, thing: &T) -> (verdict: bool) {
        (*self)(thing)
    }
}

} // verus!
