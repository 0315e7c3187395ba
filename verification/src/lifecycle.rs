use vstd::prelude::*;

use crate::error::{error_for_code, Error, FtResult};

verus! {

/// A call into FreeType that creates, references, copies or releases one of
/// the objects that this crate's handles own.
#[derive(Debug, Clone, Copy, PartialEq, Eq, Structural)]
pub enum Call {
    /// `FT_New_Library`: creates a library, holding one reference to it.
    NewLibrary,
    /// `FT_Add_Default_Modules`: registers the default modules.
    AddDefaultModules,
    /// `FT_Done_Library`: drops one reference to the library.
    DoneLibrary,
    /// `FT_Reference_Library`: takes one more reference to the library.
    ReferenceLibrary,
    /// `FT_New_Face`: opens a face from a file, holding one reference to it.
    NewFace,
    /// `FT_New_Memory_Face`: opens a face from memory, holding one reference.
    NewMemoryFace,
    /// `FT_Reference_Face`: takes one more reference to the face.
    ReferenceFace,
    /// `FT_Done_Face`: drops one reference to the face.
    DoneFace,
    /// `FT_Stroker_New`: creates a stroker.
    NewStroker,
    /// `FT_Glyph_Copy`: creates a copy of a glyph.
    CopyGlyph,
    /// `FT_Glyph_To_Bitmap` with the source kept: creates a bitmap glyph.
    GlyphToBitmap,
    /// `FT_Done_Glyph`: destroys a glyph.
    DoneGlyph,
}

/// What a handle does when a call returns an error code.
#[derive(Debug, Clone, Copy, PartialEq, Eq, Structural)]
pub enum OnError {
    /// Stop and return the error.
    Propagate,
    /// Go on as if the call had succeeded.
    Ignore,
    /// Stop and panic with the error (a handle that cannot release what it
    /// holds).
    Panic,
}

/// One call of an operation, with what happens when it fails.
#[derive(Debug, Clone, Copy, PartialEq, Eq, Structural)]
pub struct Step {
    pub call: Call,
    pub on_error: OnError,
}

/// The operations of the handle types that call into FreeType more than
/// once, or that create or release what a handle owns.
#[derive(Debug, Clone, Copy, PartialEq, Eq, Structural)]
pub enum Operation {
    /// `Library::init`.
    LibraryInit,
    /// Dropping a `Library`.
    LibraryDrop,
    /// `Library::new_face`.
    NewFace,
    /// `Library::new_memory_face`.
    NewMemoryFace,
    /// `Library::new_stroker`.
    NewStroker,
    /// `Face::from_raw`: adopts a face that is already open.
    FaceFromRaw,
    /// `Face::try_clone`.
    FaceClone,
    /// Dropping a `Face`.
    FaceDrop,
    /// `Glyph::from_raw`: adopts an existing glyph.
    GlyphFromRaw,
    /// `Glyph::try_clone`.
    GlyphClone,
    /// `Glyph::to_bitmap`.
    GlyphToBitmap,
    /// Dropping a `Glyph`.
    GlyphDrop,
    /// `BitmapGlyph::from_raw`: adopts an existing bitmap glyph.
    BitmapGlyphFromRaw,
    /// `BitmapGlyph::try_clone`.
    BitmapGlyphClone,
    /// Dropping a `BitmapGlyph`.
    BitmapGlyphDrop,
}

/// The kinds of FreeType object whose references the handles hold.
#[derive(Debug, Clone, Copy, PartialEq, Eq, Structural)]
pub enum Resource {
    Library,
    Face,
    Glyph,
    Stroker,
}

/// What comes next in an operation.
#[derive(Debug, Clone, Copy, PartialEq, Eq)]
pub enum Next {
    /// Make this call and report its return code.
    Perform(Call),
    /// The operation is over, with this result.
    Finished(FtResult<()>),
    /// The operation cannot go on: panic with this error.
    Aborted(Error),
}

pub open spec fn step(call: Call, on_error: OnError) -> Step {
    Step { call, on_error }
}

/// The calls that each operation makes, in order.
pub open spec fn plan(op: Operation) -> Seq<Step> {
    match op {
        Operation::LibraryInit => seq![
            step(Call::NewLibrary, OnError::Propagate),
            step(Call::AddDefaultModules, OnError::Ignore),
        ],
        Operation::LibraryDrop => seq![step(Call::DoneLibrary, OnError::Panic)],
        Operation::NewFace => seq![
            step(Call::NewFace, OnError::Propagate),
            step(Call::ReferenceLibrary, OnError::Ignore),
        ],
        Operation::NewMemoryFace => seq![
            step(Call::NewMemoryFace, OnError::Propagate),
            step(Call::ReferenceLibrary, OnError::Ignore),
        ],
        Operation::NewStroker => seq![step(Call::NewStroker, OnError::Propagate)],
        Operation::FaceFromRaw => seq![step(Call::ReferenceLibrary, OnError::Ignore)],
        Operation::FaceClone => seq![
            step(Call::ReferenceLibrary, OnError::Propagate),
            step(Call::ReferenceFace, OnError::Propagate),
        ],
        Operation::FaceDrop => seq![
            step(Call::DoneFace, OnError::Panic),
            step(Call::DoneLibrary, OnError::Panic),
        ],
        Operation::GlyphFromRaw => seq![step(Call::ReferenceLibrary, OnError::Ignore)],
        Operation::GlyphClone => seq![
            step(Call::CopyGlyph, OnError::Propagate),
            step(Call::ReferenceLibrary, OnError::Ignore),
        ],
        Operation::GlyphToBitmap => seq![
            step(Call::GlyphToBitmap, OnError::Propagate),
            step(Call::ReferenceLibrary, OnError::Ignore),
        ],
        Operation::GlyphDrop => seq![
            step(Call::DoneGlyph, OnError::Ignore),
            step(Call::DoneLibrary, OnError::Panic),
        ],
        Operation::BitmapGlyphFromRaw => seq![step(Call::ReferenceLibrary, OnError::Ignore)],
        Operation::BitmapGlyphClone => seq![
            step(Call::CopyGlyph, OnError::Propagate),
            step(Call::ReferenceLibrary, OnError::Ignore),
        ],
        Operation::BitmapGlyphDrop => seq![
            step(Call::DoneGlyph, OnError::Ignore),
            step(Call::DoneLibrary, OnError::Panic),
        ],
    }
}

/// How a successful call changes the number of references held to objects
/// of the kind `res`.
pub open spec fn effect(call: Call, res: Resource) -> int {
    match (call, res) {
        (Call::NewLibrary, Resource::Library) => 1,
        (Call::ReferenceLibrary, Resource::Library) => 1,
        (Call::DoneLibrary, Resource::Library) => -1,
        (Call::NewFace, Resource::Face) => 1,
        (Call::NewMemoryFace, Resource::Face) => 1,
        (Call::ReferenceFace, Resource::Face) => 1,
        (Call::DoneFace, Resource::Face) => -1,
        (Call::NewStroker, Resource::Stroker) => 1,
        (Call::CopyGlyph, Resource::Glyph) => 1,
        (Call::GlyphToBitmap, Resource::Glyph) => 1,
        (Call::DoneGlyph, Resource::Glyph) => -1,
        _ => 0,
    }
}

/// The net change in references to objects of the kind `res`, after the
/// first `rets.len()` calls of `steps` returned the codes `rets` (a call
/// changes nothing when it fails).
pub open spec fn net_effect(steps: Seq<Step>, rets: Seq<i32>, res: Resource) -> int
    decreases rets.len(),
{
    if rets.len() == 0 {
        0
    } else {
        let i = rets.len() - 1;
        net_effect(steps, rets.drop_last(), res) + if rets[i] == 0 {
            effect(steps[i].call, res)
        } else {
            0
        }
    }
}

/// What comes first in an operation.
pub open spec fn first(op: Operation) -> Next {
    if plan(op).len() > 0 {
        Next::Perform(plan(op)[0].call)
    } else {
        Next::Finished(Ok(()))
    }
}

/// What comes after the call at index `i` of the operation returned `ret`.
pub open spec fn after(op: Operation, i: int, ret: i32) -> Next {
    let s = plan(op)[i];
    if ret != 0 && s.on_error == OnError::Propagate {
        Next::Finished(Err(error_for_code(ret)))
    } else if ret != 0 && s.on_error == OnError::Panic {
        Next::Aborted(error_for_code(ret))
    } else if i + 1 < plan(op).len() {
        Next::Perform(plan(op)[i + 1].call)
    } else {
        Next::Finished(Ok(()))
    }
}

/// What comes next in the operation once its calls returned `rets`, in
/// order (codes reported after the operation ended change nothing).
pub open spec fn next_after(op: Operation, rets: Seq<i32>) -> Next
    decreases rets.len(),
{
    if rets.len() == 0 {
        first(op)
    } else {
        match next_after(op, rets.drop_last()) {
            Next::Perform(_) => after(op, rets.len() - 1, rets.last()),
            other => other,
        }
    }
}

/// `n` successful return codes.
pub open spec fn successes(n: nat) -> Seq<i32> {
    Seq::new(n, |i: int| 0i32)
}

/// The operation that releases what a creating operation made.
pub open spec fn release_of(op: Operation) -> Option<Operation> {
    match op {
        Operation::LibraryInit => Some(Operation::LibraryDrop),
        Operation::NewFace => Some(Operation::FaceDrop),
        Operation::NewMemoryFace => Some(Operation::FaceDrop),
        Operation::FaceClone => Some(Operation::FaceDrop),
        Operation::GlyphClone => Some(Operation::GlyphDrop),
        Operation::GlyphToBitmap => Some(Operation::BitmapGlyphDrop),
        Operation::BitmapGlyphClone => Some(Operation::BitmapGlyphDrop),
        _ => None,
    }
}

/// The calls that an operation makes, in order.
pub fn steps(op: Operation) -> (r: Vec<Step>)
    ensures
        r@ == plan(op),
{
    let p = OnError::Propagate;
    let i = OnError::Ignore;
    let k = OnError::Panic;
    match op {
        Operation::LibraryInit => vec![
            Step { call: Call::NewLibrary, on_error: p },
            Step { call: Call::AddDefaultModules, on_error: i },
        ],
        Operation::LibraryDrop => vec![Step { call: Call::DoneLibrary, on_error: k }],
        Operation::NewFace => vec![
            Step { call: Call::NewFace, on_error: p },
            Step { call: Call::ReferenceLibrary, on_error: i },
        ],
        Operation::NewMemoryFace => vec![
            Step { call: Call::NewMemoryFace, on_error: p },
            Step { call: Call::ReferenceLibrary, on_error: i },
        ],
        Operation::NewStroker => vec![Step { call: Call::NewStroker, on_error: p }],
        Operation::FaceFromRaw => vec![Step { call: Call::ReferenceLibrary, on_error: i }],
        Operation::FaceClone => vec![
            Step { call: Call::ReferenceLibrary, on_error: p },
            Step { call: Call::ReferenceFace, on_error: p },
        ],
        Operation::FaceDrop => vec![
            Step { call: Call::DoneFace, on_error: k },
            Step { call: Call::DoneLibrary, on_error: k },
        ],
        Operation::GlyphFromRaw => vec![Step { call: Call::ReferenceLibrary, on_error: i }],
        Operation::GlyphClone => vec![
            Step { call: Call::CopyGlyph, on_error: p },
            Step { call: Call::ReferenceLibrary, on_error: i },
        ],
        Operation::GlyphToBitmap => vec![
            Step { call: Call::GlyphToBitmap, on_error: p },
            Step { call: Call::ReferenceLibrary, on_error: i },
        ],
        Operation::GlyphDrop => vec![
            Step { call: Call::DoneGlyph, on_error: i },
            Step { call: Call::DoneLibrary, on_error: k },
        ],
        Operation::BitmapGlyphFromRaw => vec![
            Step { call: Call::ReferenceLibrary, on_error: i },
        ],
        Operation::BitmapGlyphClone => vec![
            Step { call: Call::CopyGlyph, on_error: p },
            Step { call: Call::ReferenceLibrary, on_error: i },
        ],
        Operation::BitmapGlyphDrop => vec![
            Step { call: Call::DoneGlyph, on_error: i },
            Step { call: Call::DoneLibrary, on_error: k },
        ],
    }
}


/// While an operation still has a call to make, every call so far either
/// succeeded or had its failure ignored, and the call to make is the next
/// one of the plan.
pub proof fn lemma_pending_call(op: Operation, rets: Seq<i32>)
    requires
        next_after(op, rets) is Perform,
    ensures
        rets.len() < plan(op).len(),
        next_after(op, rets)->Perform_0 == plan(op)[rets.len() as int].call,
        forall|i: int|
            0 <= i < rets.len() ==> #[trigger] rets[i] == 0 || plan(op)[i].on_error
                == OnError::Ignore,
    decreases rets.len(),
{
    if rets.len() > 0 {
        let prev = rets.drop_last();
        lemma_pending_call(op, prev);
        assert forall|i: int| 0 <= i < rets.len() implies #[trigger] rets[i] == 0 || plan(
            op,
        )[i].on_error == OnError::Ignore by {
            if i < prev.len() {
                assert(rets[i] == prev[i]);
            }
        }
    }
}

/// Reporting one more code to an operation that had a call to make moves it
/// on by exactly the step that this code decides; once the operation is
/// over, further codes change nothing.
pub proof fn lemma_next_after_push(op: Operation, rets: Seq<i32>, ret: i32)
    ensures
        next_after(op, rets) is Perform ==> next_after(op, rets.push(ret)) == after(
            op,
            rets.len() as int,
            ret,
        ),
        !(next_after(op, rets) is Perform) ==> next_after(op, rets.push(ret)) == next_after(
            op,
            rets,
        ),
{
    assert(rets.push(ret).drop_last() =~= rets);
}

/// When every call succeeds, an operation makes each call of its plan in
/// order and then finishes with `Ok`.
pub proof fn lemma_all_succeed_finishes_ok(op: Operation, k: nat)
    requires
        k <= plan(op).len(),
    ensures
        k < plan(op).len() ==> next_after(op, successes(k)) == Next::Perform(plan(op)[k as int].call),
        k == plan(op).len() ==> next_after(op, successes(k)) == Next::Finished(Ok::<(), Error>(())),
    decreases k,
{
    if k > 0 {
        lemma_all_succeed_finishes_ok(op, (k - 1) as nat);
        assert(successes(k).drop_last() =~= successes((k - 1) as nat));
    }
}

/// A run that ends with an error ends on the call that failed, that call's
/// failure is one the operation passes on, and the error is the one that
/// the call's code stands for.
pub proof fn lemma_error_ends_on_failed_call(op: Operation, rets: Seq<i32>)
    requires
        rets.len() > 0,
        next_after(op, rets.drop_last()) is Perform,
        next_after(op, rets) is Finished,
        next_after(op, rets)->Finished_0 is Err,
    ensures
        rets.last() != 0,
        plan(op)[rets.len() - 1].on_error == OnError::Propagate,
        next_after(op, rets)->Finished_0->Err_0 == error_for_code(rets.last()),
{
    lemma_pending_call(op, rets.drop_last());
}

/// Releasing a handle never ends with an error: it releases everything or
/// panics, and it panics exactly when a release call fails.
pub proof fn lemma_release_never_errs(op: Operation, rets: Seq<i32>)
    requires
        op == Operation::LibraryDrop || op == Operation::FaceDrop || op == Operation::GlyphDrop
            || op == Operation::BitmapGlyphDrop,
    ensures
        !(next_after(op, rets) is Finished && next_after(op, rets)->Finished_0 is Err),
        rets.len() > 0 && next_after(op, rets.drop_last()) is Perform ==> (next_after(
            op,
            rets,
        ) is Aborted <==> (rets.last() != 0 && plan(op)[rets.len() - 1].on_error
            == OnError::Panic)),
    decreases rets.len(),
{
    if rets.len() > 0 {
        lemma_release_never_errs(op, rets.drop_last());
        if next_after(op, rets.drop_last()) is Perform {
            lemma_pending_call(op, rets.drop_last());
        }
    }
}

/// Creating a handle and then releasing it, every call succeeding, leaves
/// the number of references to every kind of object as it was.
pub proof fn lemma_create_then_release_balanced(op: Operation, res: Resource)
    requires
        release_of(op) is Some,
    ensures
        net_effect(plan(op), successes(plan(op).len()), res) + net_effect(
            plan(release_of(op)->0),
            successes(plan(release_of(op)->0).len()),
            res,
        ) == 0,
{
    reveal_with_fuel(net_effect, 3);
    assert(successes(2).drop_last() =~= successes(1));
    assert(successes(1).drop_last() =~= successes(0));
}

/// Adopting an object that is already open (`from_raw`) and then releasing
/// its handle leaves the library's references as they were and releases
/// exactly the adopted object.
pub proof fn lemma_adopt_then_release(adopt: Operation, release: Operation, res: Resource)
    requires
        (adopt == Operation::FaceFromRaw && release == Operation::FaceDrop) || (adopt
            == Operation::GlyphFromRaw && release == Operation::GlyphDrop) || (adopt
            == Operation::BitmapGlyphFromRaw && release == Operation::BitmapGlyphDrop),
    ensures
        net_effect(plan(adopt), successes(plan(adopt).len()), res) + net_effect(
            plan(release),
            successes(plan(release).len()),
            res,
        ) == if adopt == Operation::FaceFromRaw && res == Resource::Face {
            -1
        } else if adopt != Operation::FaceFromRaw && res == Resource::Glyph {
            -1
        } else {
            0
        },
{
    reveal_with_fuel(net_effect, 3);
    assert(successes(2).drop_last() =~= successes(1));
    assert(successes(1).drop_last() =~= successes(0));
}

/// An operation that creates a handle and fails leaves no reference behind,
/// except when copying a face fails on its second call: the library
/// reference taken by the first call is then kept.
pub proof fn lemma_failed_create_leaves_nothing(op: Operation, rets: Seq<i32>, res: Resource)
    requires
        release_of(op) is Some,
        rets.len() > 0,
        next_after(op, rets.drop_last()) is Perform,
        next_after(op, rets) is Finished,
        next_after(op, rets)->Finished_0 is Err,
        !(op == Operation::FaceClone && rets.len() == 2),
    ensures
        net_effect(plan(op), rets, res) == 0,
{
    lemma_pending_call(op, rets.drop_last());
    reveal_with_fuel(net_effect, 3);
    if rets.len() == 2 {
        assert(rets.drop_last().drop_last().len() == 0);
    }
}

/// Copying a face whose second call fails keeps the library reference that
/// its first call took.
pub proof fn lemma_failed_face_copy_keeps_library(rets: Seq<i32>)
    requires
        rets.len() == 2,
        next_after(Operation::FaceClone, rets.drop_last()) is Perform,
        next_after(Operation::FaceClone, rets) is Finished,
        next_after(Operation::FaceClone, rets)->Finished_0 is Err,
    ensures
        net_effect(plan(Operation::FaceClone), rets, Resource::Library) == 1,
{
    lemma_pending_call(Operation::FaceClone, rets.drop_last());
    reveal_with_fuel(net_effect, 3);
    assert(rets.drop_last().drop_last().len() == 0);
}

/// Only `Library::init` creates a library: in every other operation a
/// library reference is gained by `FT_Reference_Library`, never by
/// `FT_New_Library`.
pub proof fn lemma_only_init_creates_library(op: Operation, i: int)
    requires
        0 <= i < plan(op).len(),
        plan(op)[i].call == Call::NewLibrary,
    ensures
        op == Operation::LibraryInit,
        i == 0,
{
}

/// Every operation that makes or adopts a face or a glyph handle takes the
/// handle's library reference with its last call, `FT_Reference_Library`,
/// after the call that made the object; and no other call of it touches
/// the library.
pub proof fn lemma_new_handle_references_library(op: Operation)
    requires
        op == Operation::NewFace || op == Operation::NewMemoryFace || op
            == Operation::FaceFromRaw || op == Operation::GlyphFromRaw || op
            == Operation::GlyphClone || op == Operation::GlyphToBitmap || op
            == Operation::BitmapGlyphFromRaw || op == Operation::BitmapGlyphClone,
    ensures
        plan(op).len() >= 1,
        plan(op).last() == step(Call::ReferenceLibrary, OnError::Ignore),
        forall|i: int|
            0 <= i < plan(op).len() - 1 ==> effect(#[trigger] plan(op)[i].call, Resource::Library)
                == 0,
        op == Operation::NewFace ==> plan(op)[0] == step(Call::NewFace, OnError::Propagate),
        op == Operation::NewMemoryFace ==> plan(op)[0] == step(
            Call::NewMemoryFace,
            OnError::Propagate,
        ),
        op == Operation::GlyphClone || op == Operation::BitmapGlyphClone ==> plan(op)[0] == step(
            Call::CopyGlyph,
            OnError::Propagate,
        ),
        op == Operation::GlyphToBitmap ==> plan(op)[0] == step(
            Call::GlyphToBitmap,
            OnError::Propagate,
        ),
        op == Operation::FaceFromRaw || op == Operation::GlyphFromRaw || op
            == Operation::BitmapGlyphFromRaw ==> plan(op).len() == 1,
        op != Operation::FaceFromRaw && op != Operation::GlyphFromRaw && op
            != Operation::BitmapGlyphFromRaw ==> plan(op).len() == 2,
{
}

/// Opening a face from memory and from a file differ only in the opening
/// call; converting a glyph to a bitmap and copying a glyph differ only in
/// the call that makes the new glyph.
pub proof fn lemma_sibling_plans_agree()
    ensures
        plan(Operation::NewMemoryFace).len() == plan(Operation::NewFace).len(),
        plan(Operation::NewMemoryFace)[1] == plan(Operation::NewFace)[1],
        plan(Operation::GlyphToBitmap).len() == plan(Operation::GlyphClone).len(),
        plan(Operation::GlyphToBitmap)[1] == plan(Operation::GlyphClone)[1],
        plan(Operation::BitmapGlyphClone) == plan(Operation::GlyphClone),
        plan(Operation::BitmapGlyphDrop) == plan(Operation::GlyphDrop),
        plan(Operation::BitmapGlyphFromRaw) == plan(Operation::GlyphFromRaw),
{
}

/// Dropping a handle first releases the handle's own object and then, as
/// its last call, drops the library reference, panicking if that fails.
pub proof fn lemma_drop_releases_object_then_library(op: Operation)
    requires
        op == Operation::LibraryDrop || op == Operation::FaceDrop || op == Operation::GlyphDrop
            || op == Operation::BitmapGlyphDrop,
    ensures
        plan(op).len() >= 1,
        plan(op).last() == step(Call::DoneLibrary, OnError::Panic),
        forall|i: int|
            0 <= i < plan(op).len() - 1 ==> #[trigger] plan(op)[i].call != Call::DoneLibrary,
        op == Operation::LibraryDrop ==> plan(op).len() == 1,
        op == Operation::FaceDrop ==> plan(op) == seq![
            step(Call::DoneFace, OnError::Panic),
            step(Call::DoneLibrary, OnError::Panic),
        ],
        op == Operation::GlyphDrop || op == Operation::BitmapGlyphDrop ==> plan(op) == seq![
            step(Call::DoneGlyph, OnError::Ignore),
            step(Call::DoneLibrary, OnError::Panic),
        ],
{
}

/// When every call succeeds, a run of `op` makes exactly the calls of its
/// plan, each once and in order: the call made after `k` successes is the
/// plan's call at `k`.
pub proof fn lemma_successful_run_calls_plan_in_order(op: Operation, k: nat)
    requires
        k < plan(op).len(),
    ensures
        next_after(op, successes(k)) == Next::Perform(plan(op)[k as int].call),
{
    lemma_all_succeed_finishes_ok(op, k);
}

/// A run of one operation: it says which call to make next and, from the
/// code each call returned, whether to go on, stop with a result, or panic.
pub struct Run {
    op: Operation,
    steps: Vec<Step>,
    pos: usize,
    next: Next,
    rets: Ghost<Seq<i32>>,
}

impl Run {
    /// The operation being run.
    pub closed spec fn operation(self) -> Operation {
        self.op
    }

    /// The codes reported so far, in order.
    pub closed spec fn reported(self) -> Seq<i32> {
        self.rets@
    }

    /// The run's state agrees with the codes reported so far.
    pub closed spec fn wf(self) -> bool {
        &&& self.steps@ == plan(self.op)
        &&& (self.next is Perform ==> self.pos == self.rets@.len())
        &&& self.next == next_after(self.op, self.rets@)
    }

    /// Starts a run of `op`, with no call made yet.
    pub fn begin(op: Operation) -> (r: Run)
        ensures
            r.operation() == op,
            r.reported() == Seq::<i32>::empty(),
            r.wf(),
    {
        let steps = steps(op);
        let next = Next::Perform(steps[0].call);
        Run { op, steps, pos: 0, next, rets: Ghost(Seq::empty()) }
    }

    /// What comes next.
    pub fn next(&self) -> (n: Next)
        requires
            self.wf(),
        ensures
            n == next_after(self.operation(), self.reported()),
    {
        self.next
    }

    /// Reports the code that the call to make returned, and gives what
    /// comes next (once the run is over, a code changes nothing).
    pub fn report(&mut self, ret: i32) -> (n: Next)
        requires
            old(self).wf(),
        ensures
            final(self).wf(),
            final(self).operation() == old(self).operation(),
            final(self).reported() == old(self).reported().push(ret),
            n == next_after(final(self).operation(), final(self).reported()),
    {
        proof {
            lemma_next_after_push(self.op, self.rets@, ret);
        }
        let ghost rets = self.rets@.push(ret);
        if !matches!(self.next, Next::Perform(_)) {
            self.rets = Ghost(rets);
            return self.next;
        }
        proof {
            lemma_pending_call(self.op, self.rets@);
        }
        let pos = self.pos;
        let s = self.steps[pos];
        let n = if ret != 0 && s.on_error == OnError::Propagate {
            Next::Finished(Err(Error::from_code(ret)))
        } else if ret != 0 && s.on_error == OnError::Panic {
            Next::Aborted(Error::from_code(ret))
        } else if pos + 1 < self.steps.len() {
            Next::Perform(self.steps[pos + 1].call)
        } else {
            Next::Finished(Ok(()))
        };
        self.pos = pos + 1;
        self.next = n;
        self.rets = Ghost(rets);
        n
    }
}

} // verus!
