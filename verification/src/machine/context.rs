//! The continuation: an explicit stack of pending work.

use crate::machine::term::{terms_view, Term, TermV};
use crate::machine::value::{values_view, Env, Value, ValueV};
use std::rc::Rc;
use vstd::prelude::*;

verus! {

/// One unit of pending work. A frame is resumed with the value that the
/// work above it has produced.
#[derive(Clone, Debug, PartialEq, Eq)]
pub enum Frame {
    /// The function side of an application is being evaluated; the argument
    /// term and its environment wait.
    AwaitArg(Rc<Term>, Rc<Env>),
    /// The function value is known; the argument term and its environment
    /// wait to be evaluated.
    AwaitFunTerm(Rc<Value>, Rc<Term>, Rc<Env>),
    /// The function value is known and waits for the value of its argument.
    AwaitFunValue(Rc<Value>),
    /// The value that comes is to be forced.
    Force,
    /// A constructor is being built: its tag, the field values so far, all
    /// its field terms, the index of the next field term to evaluate, and
    /// the environment of the fields.
    Constr(usize, Vec<Rc<Value>>, Rc<Vec<Term>>, usize, Rc<Env>),
    /// The scrutinee of a case is being evaluated; the branches and their
    /// environment wait.
    Cases(Rc<Vec<Term>>, Rc<Env>),
}

/// The mathematical value of a [`Frame`]. A constructor frame holds the field
/// terms that are still to be evaluated.
pub enum FrameV {
    AwaitArg(TermV, Seq<ValueV>),
    AwaitFunTerm(ValueV, TermV, Seq<ValueV>),
    AwaitFunValue(ValueV),
    Force,
    Constr(nat, Seq<ValueV>, Seq<TermV>, Seq<ValueV>),
    Cases(Seq<TermV>, Seq<ValueV>),
}

/// The items of `items` from index `from` on; none where `from` is past the
/// end.
pub open spec fn remaining_from<T>(items: Seq<T>, from: nat) -> Seq<T> {
    if from <= items.len() {
        items.subrange(from as int, items.len() as int)
    } else {
        Seq::empty()
    }
}

impl View for Frame {
    type V = FrameV;

    open spec fn view(&self) -> FrameV {
        match self {
            Frame::AwaitArg(argument, env) => FrameV::AwaitArg(argument@, env@),
            Frame::AwaitFunTerm(function, argument, env) => FrameV::AwaitFunTerm(
                function@,
                argument@,
                env@,
            ),
            Frame::AwaitFunValue(function) => FrameV::AwaitFunValue(function@),
            Frame::Force => FrameV::Force,
            Frame::Constr(tag, done, fields, next, env) => FrameV::Constr(
                *tag as nat,
                values_view(done@),
                remaining_from(terms_view(fields@), *next as nat),
                env@,
            ),
            Frame::Cases(branches, env) => FrameV::Cases(terms_view(branches@), env@),
        }
    }
}

/// The continuation of a machine state: the pending frames, outermost first.
/// The frame to resume next is the last one; what lies before it is its
/// rest. The empty stack is the continuation with no frame.
#[derive(Clone, Debug, PartialEq, Eq)]
pub struct Context {
    pub frames: Vec<Frame>,
}

/// The values of a stack of frames, in order.
pub open spec fn frames_view(frames: Seq<Frame>) -> Seq<FrameV> {
    Seq::new(frames.len(), |i: int| frames[i]@)
}

/// The number of frames in a continuation: none for the empty one, and one
/// more than its rest has for any other.
pub open spec fn depth(context: Seq<FrameV>) -> nat {
    context.len()
}

impl View for Context {
    type V = Seq<FrameV>;

    open spec fn view(&self) -> Seq<FrameV> {
        frames_view(self.frames@)
    }
}

impl Context {
    /// The continuation with no frame.
    pub fn no_frame() -> (res: Context)
        ensures
            res@ == Seq::<FrameV>::empty(),
    {
        let res = Context { frames: Vec::new() };
        assert(res@ =~= Seq::<FrameV>::empty());
        res
    }

    /// Whether the continuation has no frame.
    pub fn is_no_frame(&self) -> (res: bool)
        ensures
            res == (self@.len() == 0),
    {
        self.frames.len() == 0
    }

    /// Wraps the continuation in `frame`: the old continuation becomes the
    /// rest of the new frame.
    pub fn push(&mut self, frame: Frame)
        ensures
            final(self)@ == old(self)@.push(frame@),
    {
        self.frames.push(frame);
        assert(self@ =~= old(self)@.push(frame@));
    }

    /// Takes the frame to resume next off the continuation, which becomes
    /// that frame's rest; `None` where there is no frame.
    pub fn pop(&mut self) -> (res: Option<Frame>)
        ensures
            old(self)@.len() == 0 ==> res is None && final(self)@ == old(self)@,
            old(self)@.len() > 0 ==> (res matches Some(frame) && frame@ == old(self)@.last()
                && final(self)@ == old(self)@.drop_last()),
    {
        let res = self.frames.pop();
        assert(old(self)@.len() > 0 ==> self@ =~= old(self)@.drop_last());
        assert(old(self)@.len() == 0 ==> self@ =~= old(self)@);
        res
    }

    /// The number of frames.
    pub fn depth(&self) -> (res: usize)
        ensures
            res == depth(self@),
    {
        self.frames.len()
    }
}

} // verus!
