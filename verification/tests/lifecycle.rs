use freetype::error::Error;
use freetype::lifecycle::{steps, Call, Next, OnError, Operation, Run};

fn drive(op: Operation, rets: &[i32]) -> (Vec<Call>, Next) {
    let mut run = Run::begin(op);
    let mut calls = Vec::new();
    let mut next = run.next();
    let mut i = 0;
    while let Next::Perform(call) = next {
        calls.push(call);
        next = run.report(rets[i]);
        i += 1;
    }
    (calls, next)
}

#[test]
fn library_init_creates_then_adds_modules() {
    let (calls, next) = drive(Operation::LibraryInit, &[0, 0]);
    assert_eq!(calls, vec![Call::NewLibrary, Call::AddDefaultModules]);
    assert_eq!(next, Next::Finished(Ok(())));
}

#[test]
fn library_init_stops_when_creation_fails() {
    let (calls, next) = drive(Operation::LibraryInit, &[0x40]);
    assert_eq!(calls, vec![Call::NewLibrary]);
    assert_eq!(next, Next::Finished(Err(Error::OutOfMemory)));
}

#[test]
fn new_face_references_the_library() {
    let (calls, next) = drive(Operation::NewFace, &[0, 0]);
    assert_eq!(calls, vec![Call::NewFace, Call::ReferenceLibrary]);
    assert_eq!(next, Next::Finished(Ok(())));
    let (calls, next) = drive(Operation::NewFace, &[0x01]);
    assert_eq!(calls, vec![Call::NewFace]);
    assert_eq!(next, Next::Finished(Err(Error::CannotOpenResource)));
    let (calls, next) = drive(Operation::NewMemoryFace, &[0x02]);
    assert_eq!(calls, vec![Call::NewMemoryFace]);
    assert_eq!(next, Next::Finished(Err(Error::UnknownFileFormat)));
}

#[test]
fn adopting_ignores_a_failed_reference() {
    let (calls, next) = drive(Operation::FaceFromRaw, &[0x21]);
    assert_eq!(calls, vec![Call::ReferenceLibrary]);
    assert_eq!(next, Next::Finished(Ok(())));
}

#[test]
fn face_copy_references_library_then_face() {
    let (calls, next) = drive(Operation::FaceClone, &[0, 0]);
    assert_eq!(calls, vec![Call::ReferenceLibrary, Call::ReferenceFace]);
    assert_eq!(next, Next::Finished(Ok(())));
    let (calls, next) = drive(Operation::FaceClone, &[0x21]);
    assert_eq!(calls, vec![Call::ReferenceLibrary]);
    assert_eq!(next, Next::Finished(Err(Error::InvalidLibraryHandle)));
    let (calls, next) = drive(Operation::FaceClone, &[0, 0x23]);
    assert_eq!(calls, vec![Call::ReferenceLibrary, Call::ReferenceFace]);
    assert_eq!(next, Next::Finished(Err(Error::InvalidFaceHandle)));
}

#[test]
fn face_drop_releases_face_then_library_and_panics_on_failure() {
    let (calls, next) = drive(Operation::FaceDrop, &[0, 0]);
    assert_eq!(calls, vec![Call::DoneFace, Call::DoneLibrary]);
    assert_eq!(next, Next::Finished(Ok(())));
    let (calls, next) = drive(Operation::FaceDrop, &[0x23]);
    assert_eq!(calls, vec![Call::DoneFace]);
    assert_eq!(next, Next::Aborted(Error::InvalidFaceHandle));
    let (_, next) = drive(Operation::FaceDrop, &[0, 0x21]);
    assert_eq!(next, Next::Aborted(Error::InvalidLibraryHandle));
}

#[test]
fn glyph_drop_ignores_done_glyph() {
    let (calls, next) = drive(Operation::GlyphDrop, &[7, 0]);
    assert_eq!(calls, vec![Call::DoneGlyph, Call::DoneLibrary]);
    assert_eq!(next, Next::Finished(Ok(())));
    let (_, next) = drive(Operation::BitmapGlyphDrop, &[0, 0x21]);
    assert_eq!(next, Next::Aborted(Error::InvalidLibraryHandle));
    let (calls, next) = drive(Operation::LibraryDrop, &[0]);
    assert_eq!(calls, vec![Call::DoneLibrary]);
    assert_eq!(next, Next::Finished(Ok(())));
}

#[test]
fn glyph_copies_and_bitmaps() {
    let (calls, next) = drive(Operation::GlyphClone, &[0, 0]);
    assert_eq!(calls, vec![Call::CopyGlyph, Call::ReferenceLibrary]);
    assert_eq!(next, Next::Finished(Ok(())));
    let (calls, next) = drive(Operation::GlyphToBitmap, &[0x13]);
    assert_eq!(calls, vec![Call::GlyphToBitmap]);
    assert_eq!(next, Next::Finished(Err(Error::CannotRenderGlyph)));
    let (calls, next) = drive(Operation::BitmapGlyphClone, &[0, 0]);
    assert_eq!(calls, vec![Call::CopyGlyph, Call::ReferenceLibrary]);
    assert_eq!(next, Next::Finished(Ok(())));
    let (calls, _) = drive(Operation::NewStroker, &[0]);
    assert_eq!(calls, vec![Call::NewStroker]);
}

#[test]
fn codes_after_the_end_change_nothing() {
    let mut run = Run::begin(Operation::LibraryDrop);
    assert_eq!(run.report(0), Next::Finished(Ok(())));
    assert_eq!(run.report(0x21), Next::Finished(Ok(())));
    assert_eq!(run.next(), Next::Finished(Ok(())));
}

/// Net references held after running `op` with every call succeeding:
/// (library, face, glyph).
fn net(op: Operation) -> (i32, i32, i32) {
    let mut t = (0, 0, 0);
    for s in steps(op) {
        match s.call {
            Call::NewLibrary | Call::ReferenceLibrary => t.0 += 1,
            Call::DoneLibrary => t.0 -= 1,
            Call::NewFace | Call::NewMemoryFace | Call::ReferenceFace => t.1 += 1,
            Call::DoneFace => t.1 -= 1,
            Call::CopyGlyph | Call::GlyphToBitmap => t.2 += 1,
            Call::DoneGlyph => t.2 -= 1,
            Call::AddDefaultModules | Call::NewStroker => {}
        }
    }
    t
}

fn add(a: (i32, i32, i32), b: (i32, i32, i32)) -> (i32, i32, i32) {
    (a.0 + b.0, a.1 + b.1, a.2 + b.2)
}

#[test]
fn create_then_release_is_balanced() {
    assert_eq!(add(net(Operation::LibraryInit), net(Operation::LibraryDrop)), (0, 0, 0));
    assert_eq!(add(net(Operation::NewFace), net(Operation::FaceDrop)), (0, 0, 0));
    assert_eq!(add(net(Operation::NewMemoryFace), net(Operation::FaceDrop)), (0, 0, 0));
    assert_eq!(add(net(Operation::FaceClone), net(Operation::FaceDrop)), (0, 0, 0));
    assert_eq!(add(net(Operation::GlyphClone), net(Operation::GlyphDrop)), (0, 0, 0));
    assert_eq!(add(net(Operation::GlyphToBitmap), net(Operation::BitmapGlyphDrop)), (0, 0, 0));
    assert_eq!(add(net(Operation::FaceFromRaw), net(Operation::FaceDrop)), (0, -1, 0));
    assert_eq!(add(net(Operation::GlyphFromRaw), net(Operation::GlyphDrop)), (0, 0, -1));
}

#[test]
fn plans_propagate_or_panic_as_the_handles_do() {
    let drop_policies: Vec<OnError> = steps(Operation::FaceDrop).iter().map(|s| s.on_error).collect();
    assert_eq!(drop_policies, vec![OnError::Panic, OnError::Panic]);
    let clone_policies: Vec<OnError> = steps(Operation::FaceClone).iter().map(|s| s.on_error).collect();
    assert_eq!(clone_policies, vec![OnError::Propagate, OnError::Propagate]);
}
