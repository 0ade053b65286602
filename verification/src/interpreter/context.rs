//! The environment: binding frames that link to the frame around them, the
//! frame that is current, and the lines that `print` has written.
//!
//! The frames live in one list and are named by their index. A closure
//! keeps the index of the frame it captured, so a binding added to that
//! frame later is seen by the closure too. A frame never gets another
//! parent. The frames that a call added are dropped when the call ends,
//! unless a closure in its value captured one of them; a frame that a
//! binding or a value refers to is never dropped.

use crate::interpreter::value::{lemma_fits_more, option_view, Value, ValueView};
use crate::text::text_equals;
use vstd::prelude::*;

verus! {

/// A name and the value bound to it.
#[derive(Debug)]
pub struct Binding {
    pub name: String,
    pub value: Value,
}

/// One frame. A later binding of a name hides an earlier one.
#[derive(Debug)]
struct Frame {
    parent: Option<usize>,
    bindings: Vec<Binding>,
}

/// The model of a frame: the index of the frame around it, if any, and the
/// value of each name that it binds.
pub struct FrameView {
    pub parent: Option<nat>,
    pub bindings: Map<Seq<char>, ValueView>,
}

/// The frames, the index of the current one, and the output.
#[derive(Debug)]
pub struct Context {
    frames: Vec<Frame>,
    current: usize,
    output: Vec<String>,
}

/// The model of a [`Context`].
pub struct ContextView {
    pub frames: Seq<FrameView>,
    pub current: nat,
    pub output: Seq<Seq<char>>,
}

/// The map that a list of bindings stands for: each name with the value of
/// its last binding in the list.
pub open spec fn bindings_view(bindings: Seq<Binding>) -> Map<Seq<char>, ValueView>
    decreases bindings.len(),
{
    if bindings.len() == 0 {
        Map::empty()
    } else {
        bindings_view(bindings.drop_last()).insert(bindings.last().name@, bindings.last().value@)
    }
}

/// The characters of each line of a list of lines.
pub open spec fn lines_view(lines: Seq<String>) -> Seq<Seq<char>> {
    Seq::new(lines.len(), |i: int| lines[i]@)
}

spec fn frame_view(frame: Frame) -> FrameView {
    FrameView {
        parent: match frame.parent {
            Some(parent) => Some(parent as nat),
            None => None,
        },
        bindings: bindings_view(frame.bindings@),
    }
}

impl View for Context {
    type V = ContextView;

    closed spec fn view(&self) -> ContextView {
        ContextView {
            frames: Seq::new(self.frames@.len(), |i: int| frame_view(self.frames@[i])),
            current: self.current as nat,
            output: lines_view(self.output@),
        }
    }
}

impl ContextView {
    /// The context of a new run: one frame without a parent and without
    /// bindings, and no output.
    pub open spec fn fresh() -> ContextView {
        ContextView {
            frames: seq![FrameView { parent: None, bindings: Map::empty() }],
            current: 0,
            output: Seq::empty(),
        }
    }

    /// Well-formedness: the current frame exists, the parent of a frame is
    /// an older frame, and every closure that is bound somewhere captured a
    /// frame that exists.
    pub open spec fn wf(self) -> bool {
        &&& self.current < self.frames.len()
        &&& forall|i: int|
            0 <= i < self.frames.len() ==> (#[trigger] self.frames[i].parent matches Some(p)
                ==> p < i)
        &&& forall|i: int, name: Seq<char>|
            0 <= i < self.frames.len() && #[trigger] self.frames[i].bindings.contains_key(name)
                ==> self.frames[i].bindings[name].fits(self.frames.len())
    }

    /// The value of `name` as seen from the frame with index `frame`: that
    /// frame's own binding if it has one, else what its parent sees.
    pub open spec fn lookup(self, frame: nat, name: Seq<char>) -> Option<ValueView>
        decreases frame,
    {
        if frame >= self.frames.len() {
            None
        } else if self.frames[frame as int].bindings.contains_key(name) {
            Some(self.frames[frame as int].bindings[name])
        } else {
            match self.frames[frame as int].parent {
                Some(parent) => if parent < frame {
                    self.lookup(parent, name)
                } else {
                    None
                },
                None => None,
            }
        }
    }

    /// The value of `name` as seen from the current frame.
    pub open spec fn get(self, name: Seq<char>) -> Option<ValueView> {
        self.lookup(self.current, name)
    }

    /// The context after `name` is bound to `value` in the current frame.
    /// No other frame changes.
    pub open spec fn set(self, name: Seq<char>, value: ValueView) -> ContextView {
        let frame = self.frames[self.current as int];
        ContextView {
            frames: self.frames.update(
                self.current as int,
                FrameView { parent: frame.parent, bindings: frame.bindings.insert(name, value) },
            ),
            current: self.current,
            output: self.output,
        }
    }

    /// The context after a new frame with the given parent and bindings is
    /// added and made current.
    pub open spec fn enter(self, parent: nat, bindings: Map<Seq<char>, ValueView>) -> ContextView {
        ContextView {
            frames: self.frames.push(FrameView { parent: Some(parent), bindings }),
            current: self.frames.len(),
            output: self.output,
        }
    }

    /// The context after a call has ended: the frame with index `previous`
    /// is current again, and unless the frames of the call are to be kept,
    /// only the first `mark` frames are left.
    pub open spec fn leave(self, previous: nat, mark: nat, keep: bool) -> ContextView {
        ContextView {
            frames: if keep {
                self.frames
            } else {
                self.frames.take(mark as int)
            },
            current: previous,
            output: self.output,
        }
    }

    /// The context after `line` is written to the output.
    pub open spec fn print(self, line: Seq<char>) -> ContextView {
        ContextView { frames: self.frames, current: self.current, output: self.output.push(line) }
    }

    /// Whether `self` can come from `before` by work done in the current
    /// frame of `before`: the same frame is current; the frames of `before`
    /// are all there, with their parents; none of them but the current one
    /// has changed; the current one has lost no name; and the output of
    /// `before` starts the output.
    pub open spec fn extends(self, before: ContextView) -> bool {
        &&& self.current == before.current
        &&& before.frames.len() <= self.frames.len()
        &&& forall|i: int|
            0 <= i < before.frames.len() && i != before.current ==> #[trigger] self.frames[i]
                == before.frames[i]
        &&& self.frames[before.current as int].parent == before.frames[before.current as int].parent
        &&& before.frames[before.current as int].bindings.dom().subset_of(
            self.frames[before.current as int].bindings.dom(),
        )
        &&& before.output.is_prefix_of(self.output)
    }
}

/// Binding a value that fits in the current frame keeps a context
/// well-formed.
pub proof fn lemma_set_wf(context: ContextView, name: Seq<char>, value: ValueView)
    requires
        context.wf(),
        value.fits(context.frames.len()),
    ensures
        context.set(name, value).wf(),
        context.set(name, value).extends(context),
{
    let after = context.set(name, value);
    assert forall|i: int, n: Seq<char>|
        0 <= i < after.frames.len() && #[trigger] after.frames[i].bindings.contains_key(
            n,
        ) implies after.frames[i].bindings[n].fits(after.frames.len()) by {
        if i == context.current && n == name {
        } else {
            assert(context.frames[i].bindings.contains_key(n));
        }
    }
}

/// Entering a new frame whose parent exists and whose values fit keeps a
/// context well-formed, and changes no frame that was there.
pub proof fn lemma_enter_wf(context: ContextView, parent: nat, bindings: Map<Seq<char>, ValueView>)
    requires
        context.wf(),
        parent < context.frames.len(),
        forall|name: Seq<char>|
            #![trigger bindings.contains_key(name)]
            bindings.contains_key(name) ==> bindings[name].fits(context.frames.len()),
    ensures
        context.enter(parent, bindings).wf(),
        forall|i: int|
            0 <= i < context.frames.len() ==> #[trigger] context.enter(parent, bindings).frames[i]
                == context.frames[i],
{
    let after = context.enter(parent, bindings);
    assert forall|i: int, n: Seq<char>|
        0 <= i < after.frames.len() && #[trigger] after.frames[i].bindings.contains_key(
            n,
        ) implies after.frames[i].bindings[n].fits(after.frames.len()) by {
        if i < context.frames.len() {
            assert(context.frames[i].bindings.contains_key(n));
            lemma_fits_more(context.frames[i].bindings[n], context.frames.len(), after.frames.len());
        } else {
            assert(bindings.contains_key(n));
            lemma_fits_more(bindings[n], context.frames.len(), after.frames.len());
        }
    }
}

/// Leaving a call keeps the context well-formed: the frames that were
/// there before the call are as they were, so dropping the others leaves
/// nothing that refers to them.
pub proof fn lemma_leave_wf(before: ContextView, after: ContextView, keep: bool)
    requires
        before.wf(),
        after.wf(),
        after.current == before.frames.len(),
        before.frames.len() < after.frames.len(),
        forall|i: int|
            0 <= i < before.frames.len() ==> #[trigger] after.frames[i] == before.frames[i],
    ensures
        after.leave(before.current, before.frames.len(), keep).wf(),
        !keep ==> after.leave(before.current, before.frames.len(), keep).frames == before.frames,
{
    let left = after.leave(before.current, before.frames.len(), keep);
    if !keep {
        assert(left.frames =~= before.frames);
        assert forall|i: int, name: Seq<char>|
            0 <= i < left.frames.len() && #[trigger] left.frames[i].bindings.contains_key(
                name,
            ) implies left.frames[i].bindings[name].fits(left.frames.len()) by {
            assert(before.frames[i].bindings.contains_key(name));
        }
    }
}

/// What a well-formed context holds for a name fits the context.
pub proof fn lemma_lookup_fits(context: ContextView, frame: nat, name: Seq<char>)
    requires
        context.wf(),
    ensures
        context.lookup(frame, name) matches Some(value) ==> value.fits(context.frames.len()),
    decreases frame,
{
    if frame < context.frames.len() && !context.frames[frame as int].bindings.contains_key(name) {
        match context.frames[frame as int].parent {
            Some(parent) => {
                if parent < frame {
                    lemma_lookup_fits(context, parent, name);
                }
            },
            None => {},
        }
    }
}

/// The index of the last binding of `var` in `bindings`, if there is one.
fn find(bindings: &Vec<Binding>, var: &str) -> (res: Option<usize>)
    ensures
        match res {
            Some(i) => i < bindings.len() && bindings_view(bindings@).contains_key(var@)
                && bindings_view(bindings@)[var@] == bindings[i as int].value@,
            None => !bindings_view(bindings@).contains_key(var@),
        },
{
    let mut i: usize = bindings.len();
    assert(bindings@.take(i as int) == bindings@);
    while i > 0
        invariant
            i <= bindings.len(),
            bindings_view(bindings@).contains_key(var@) == bindings_view(
                bindings@.take(i as int),
            ).contains_key(var@),
            bindings_view(bindings@).contains_key(var@) ==> bindings_view(bindings@)[var@]
                == bindings_view(bindings@.take(i as int))[var@],
        decreases i,
    {
        i -= 1;
        assert(bindings@.take(i + 1).drop_last() == bindings@.take(i as int));
        if text_equals(bindings[i].name.as_str(), var) {
            return Some(i);
        }
    }
    None
}

impl Context {
    /// A context for a new run.
    pub fn new() -> (res: Context)
        ensures
            res@ == ContextView::fresh(),
            res@.wf(),
    {
        let mut frames: Vec<Frame> = Vec::new();
        frames.push(Frame { parent: None, bindings: Vec::new() });
        let res = Context { frames, current: 0, output: Vec::new() };
        assert(res@.frames =~= ContextView::fresh().frames);
        assert(res@.output =~= ContextView::fresh().output);
        res
    }

    /// A copy of the value of `var` as seen from the current frame, or
    /// `None` where neither it nor a frame around it binds `var`.
    pub fn get(&self, var: &str) -> (res: Option<Value>)
        requires
            self@.wf(),
        ensures
            option_view(res) == self@.get(var@),
            res matches Some(value) ==> value@.fits(self@.frames.len()),
    {
        let mut frame = self.current;
        loop
            invariant
                self@.wf(),
                frame < self.frames.len(),
                self@.get(var@) == self@.lookup(frame as nat, var@),
            decreases frame,
        {
            assert(self@.frames[frame as int] == frame_view(self.frames@[frame as int]));
            match find(&self.frames[frame].bindings, var) {
                Some(i) => {
                    return Some(self.frames[frame].bindings[i].value.clone());
                },
                None => {
                    match self.frames[frame].parent {
                        Some(parent) => {
                            frame = parent;
                        },
                        None => {
                            return None;
                        },
                    }
                },
            }
        }
    }

    /// Binds `var` to `value` in the current frame. A closure belongs to
    /// the context that made it: `value` may hold none of another context.
    pub fn set(&mut self, var: String, value: Value)
        requires
            old(self)@.wf(),
            value@.fits(old(self)@.frames.len()),
        ensures
            final(self)@ == old(self)@.set(var@, value@),
            final(self)@.wf(),
    {
        let current = self.current;
        self.frames[current].bindings.push(Binding { name: var, value });
        proof {
            let before = old(self)@;
            assert(self.frames@[current as int].bindings@.drop_last() == old(
                self,
            ).frames@[current as int].bindings@);
            assert(self@.frames =~= before.set(var@, value@).frames);
            lemma_set_wf(before, var@, value@);
        }
    }

    /// The index of the current frame.
    pub fn current(&self) -> (res: usize)
        ensures
            res == self@.current,
    {
        self.current
    }

    /// The number of frames.
    pub fn frames(&self) -> (res: usize)
        ensures
            res == self@.frames.len(),
    {
        self.frames.len()
    }

    /// Adds a frame with the given parent and bindings, makes it current,
    /// and returns the index of the frame that was current.
    pub fn enter(&mut self, parent: usize, bindings: Vec<Binding>) -> (previous: usize)
        requires
            old(self)@.wf(),
            parent < old(self)@.frames.len(),
            forall|i: int|
                0 <= i < bindings.len() ==> (#[trigger] bindings[i]).value@.fits(
                    old(self)@.frames.len(),
                ),
        ensures
            final(self)@ == old(self)@.enter(parent as nat, bindings_view(bindings@)),
            final(self)@.wf(),
            previous == old(self)@.current,
    {
        let previous = self.current;
        proof {
            lemma_bindings_fit(bindings@, old(self)@.frames.len());
            lemma_enter_wf(old(self)@, parent as nat, bindings_view(bindings@));
        }
        self.current = self.frames.len();
        self.frames.push(Frame { parent: Some(parent), bindings });
        assert(self@.frames =~= old(self)@.enter(parent as nat, bindings_view(bindings@)).frames);
        previous
    }

    /// Ends a call: makes the frame with index `previous` current again
    /// and, unless `keep` is set, drops the frames from index `mark` on,
    /// which must be those that the call added. They are kept where the
    /// value of the call holds a closure that captured one of them.
    pub fn leave(&mut self, previous: usize, mark: usize, keep: bool)
        requires
            previous < mark <= old(self)@.frames.len(),
            old(self)@.leave(previous as nat, mark as nat, keep).wf(),
        ensures
            final(self)@ == old(self)@.leave(previous as nat, mark as nat, keep),
    {
        self.current = previous;
        if !keep {
            self.frames.truncate(mark);
        }
        assert(self@.frames =~= old(self)@.leave(previous as nat, mark as nat, keep).frames);
    }

    /// Writes `line` to the output.
    pub fn print(&mut self, line: String)
        ensures
            final(self)@ == old(self)@.print(line@),
    {
        self.output.push(line);
        assert(self@.output =~= old(self)@.print(line@).output);
    }

    /// The lines written so far, in order.
    pub fn output(&self) -> (res: &Vec<String>)
        ensures
            lines_view(res@) == self@.output,
    {
        &self.output
    }

    /// Ends the run and hands out the lines written, in order.
    pub fn into_output(self) -> (res: Vec<String>)
        ensures
            lines_view(res@) == self@.output,
    {
        self.output
    }
}

/// The map of a list of bindings holds the values of the list.
proof fn lemma_bindings_fit(bindings: Seq<Binding>, frames: nat)
    requires
        forall|i: int| 0 <= i < bindings.len() ==> (#[trigger] bindings[i]).value@.fits(frames),
    ensures
        forall|name: Seq<char>|
            #![trigger bindings_view(bindings).contains_key(name)]
            bindings_view(bindings).contains_key(name) ==> bindings_view(bindings)[name].fits(
                frames,
            ),
    decreases bindings.len(),
{
    if bindings.len() > 0 {
        let rest = bindings.drop_last();
        assert forall|i: int| 0 <= i < rest.len() implies (#[trigger] rest[i]).value@.fits(
            frames,
        ) by {
            assert(rest[i] == bindings[i]);
        }
        lemma_bindings_fit(rest, frames);
        let last = bindings[bindings.len() - 1];
        assert(last.value@.fits(frames));
        assert(bindings_view(bindings) == bindings_view(rest).insert(last.name@, last.value@));
        assert forall|name: Seq<char>| #[trigger]
            bindings_view(bindings).contains_key(name) implies bindings_view(
            bindings,
        )[name].fits(frames) by {
            if name != last.name@ {
                assert(bindings_view(rest).contains_key(name));
            }
        }
    }
}

} // verus!
