//! A model of the caller's side of a run: files, fresh random bytes and a
//! cipher, and a caller who carries out every action it is handed. It exists
//! to state what a whole run achieves; no code runs it.
use crate::params::{Direction, FileKind, Params, Slot};
use crate::run::{initial, next, ActionView, ReportView, RunView};
use vstd::prelude::*;

verus! {

/// The contents of the four files. `None` is a file that cannot be read.
pub struct Files {
    pub input: Option<Seq<u8>>,
    pub output: Option<Seq<u8>>,
    pub key: Option<Seq<u8>>,
    pub iv: Option<Seq<u8>>,
}

impl Files {
    /// The contents of one file.
    pub open spec fn get(self, file: FileKind) -> Option<Seq<u8>> {
        match file {
            FileKind::Input => self.input,
            FileKind::Output => self.output,
            FileKind::Key => self.key,
            FileKind::Iv => self.iv,
        }
    }

    /// The files after `bytes` are written to one of them.
    pub open spec fn put(self, file: FileKind, bytes: Seq<u8>) -> Files {
        match file {
            FileKind::Input => Files { input: Some(bytes), ..self },
            FileKind::Output => Files { output: Some(bytes), ..self },
            FileKind::Key => Files { key: Some(bytes), ..self },
            FileKind::Iv => Files { iv: Some(bytes), ..self },
        }
    }
}

/// Everything outside a run.
pub struct World {
    pub files: Files,
    /// The bytes that the next draw for the key gives.
    pub fresh_key: Seq<u8>,
    /// The bytes that the next draw for the IV gives.
    pub fresh_iv: Seq<u8>,
    /// The cipher: from key, IV and input to the transformed bytes.
    pub cipher: spec_fn(Seq<u8>, Seq<u8>, Seq<u8>) -> Seq<u8>,
    /// How many times random bytes have been drawn.
    pub draws: nat,
    /// How many times the cipher has run.
    pub transforms: nat,
}

impl World {
    /// The key that a run in this world works with: the stored one if it can
    /// be read, else the one that would be drawn.
    pub open spec fn key_in_use(self) -> Seq<u8> {
        match self.files.key {
            Some(key) => key,
            None => self.fresh_key,
        }
    }

    /// The IV that a run in this world works with: the stored one if it can be
    /// read, else the one that would be drawn.
    pub open spec fn iv_in_use(self) -> Seq<u8> {
        match self.files.iv {
            Some(iv) => iv,
            None => self.fresh_iv,
        }
    }

    /// How many draws an encrypting run makes here: one for each of key and IV
    /// that cannot be read.
    pub open spec fn draws_needed(self) -> nat {
        let for_key: nat = if self.files.key is None {
            1
        } else {
            0
        };
        let for_iv: nat = if self.files.iv is None {
            1
        } else {
            0
        };
        for_key + for_iv
    }
}

/// `scratch` after `written` has been stored at its front.
pub open spec fn overlay(scratch: Seq<u8>, written: Seq<u8>) -> Seq<u8> {
    Seq::new(
        scratch.len(),
        |i: int|
            if i < written.len() {
                written[i]
            } else {
                scratch[i]
            },
    )
}

/// The world after the caller has carried out `a`, and the caller's report.
/// Reading succeeds where the file is there; everything else succeeds.
pub open spec fn perform(w: World, a: ActionView) -> (World, ReportView) {
    match a {
        ActionView::Read(file) => (
            w,
            match w.files.get(file) {
                Some(bytes) => ReportView::Done(bytes),
                None => ReportView::Failed,
            },
        ),
        ActionView::Generate { slot, len } => (
            World { draws: w.draws + 1, ..w },
            ReportView::Done(
                match slot {
                    Slot::Key => w.fresh_key,
                    Slot::Iv => w.fresh_iv,
                },
            ),
        ),
        ActionView::Transform { key, iv, input, scratch } => (
            World { transforms: w.transforms + 1, ..w },
            ReportView::Done(overlay(scratch, (w.cipher)(key, iv, input))),
        ),
        ActionView::Write { file, bytes } => (
            World { files: w.files.put(file, bytes), ..w },
            ReportView::Done(Seq::empty()),
        ),
        ActionView::Finish => (w, ReportView::Failed),
        ActionView::Fail(e) => (w, ReportView::Failed),
    }
}

/// The run, its pending action and the world after the caller has carried out
/// at most `limit` actions, stopping when the run is over.
pub open spec fn drive(s: RunView, a: ActionView, w: World, limit: nat) -> (
    RunView,
    ActionView,
    World,
)
    decreases limit,
{
    if limit == 0 || a is Finish || a is Fail {
        (s, a, w)
    } else {
        let (w1, r) = perform(w, a);
        let (s1, a1) = next(s, r);
        drive(s1, a1, w1, (limit - 1) as nat)
    }
}

/// A whole run in world `w`: the action it ends on, and the world it leaves.
/// No run takes more than nine actions.
pub open spec fn run(direction: Direction, params: Params, w: World) -> (ActionView, World) {
    let end = drive(initial(direction, params), ActionView::Read(FileKind::Input), w, 9);
    (end.1, end.2)
}

} // verus!
