//! What holds of every run, proved from the definition of a step.
use crate::error::Error;
use crate::material::length_fault;
use crate::params::{Direction, FileKind, Params, Slot};
use crate::run::{initial, next, ActionView, Phase, ReportView, RunView};
use crate::sizing::{fit, lemma_padded_bounds, padded, zeros};
use crate::world::{drive, overlay, run, Files, World};
use vstd::prelude::*;

verus! {

/// A run begins in a well-formed state.
pub proof fn lemma_initial_wf(direction: Direction, params: Params)
    ensures
        initial(direction, params).wf(),
{
}

/// A step from a well-formed state leads to a well-formed state, and changes
/// neither the direction nor the parameters.
pub proof fn lemma_next_wf(s: RunView, r: ReportView)
    requires
        s.wf(),
    ensures
        next(s, r).0.wf(),
        next(s, r).0.direction == s.direction,
        next(s, r).0.params == s.params,
{
}

/// The cipher is only ever handed a key and an IV of exactly the lengths the
/// parameters ask for, together with a zeroed scratch buffer of the padded
/// length, which leaves it one block of room beyond the input.
pub proof fn lemma_cipher_gets_checked_material(s: RunView, r: ReportView)
    ensures
        next(s, r).1 matches ActionView::Transform { key, iv, input, scratch } ==> {
            &&& key.len() == s.params.spec_key_len()
            &&& iv.len() == s.params.spec_block_len()
            &&& scratch == zeros(padded(input.len(), s.params.spec_block_len() as nat))
            &&& input.len() + s.params.spec_block_len() <= scratch.len() <= usize::MAX
            &&& next(s, r).0.input_len == input.len()
            &&& next(s, r).0.phase == Phase::Transforming
        },
{
    if next(s, r).1 is Transform {
        let block = s.params.spec_block_len() as nat;
        match next(s, r).1 {
            ActionView::Transform { key, iv, input, scratch } => {
                lemma_padded_bounds(input.len(), block);
            },
            _ => {},
        }
    }
}

/// Once key and IV are both in hand, a key of the wrong length ends the run
/// with `InvalidLength` for the key, and otherwise an IV of the wrong length
/// ends it with `InvalidLength` for the IV, whatever the direction. No action
/// for the cipher is handed out.
pub proof fn lemma_wrong_length_rejected(s: RunView, iv: Seq<u8>)
    requires
        s.phase == Phase::ReadingIv || s.phase == Phase::GeneratingIv,
        length_fault(s.key, iv, s.params) is Some,
    ensures
        next(s, ReportView::Done(iv)).1 == ActionView::Fail(
            length_fault(s.key, iv, s.params)->0,
        ),
        next(s, ReportView::Done(iv)).0.phase == Phase::Failed(
            length_fault(s.key, iv, s.params)->0,
        ),
        length_fault(s.key, iv, s.params)->0 is InvalidLength,
{
}

/// A decrypting run never asks for random bytes: a key or IV file that cannot
/// be read ends it with an I/O error for that file.
pub proof fn lemma_decrypt_never_generates(s: RunView, r: ReportView)
    requires
        s.direction == Direction::Decrypt,
    ensures
        !(next(s, r).1 is Generate),
        s.phase == Phase::ReadingKey && r is Failed ==> next(s, r).1 == ActionView::Fail(
            Error::Io(FileKind::Key),
        ),
        s.phase == Phase::ReadingIv && r is Failed ==> next(s, r).1 == ActionView::Fail(
            Error::Io(FileKind::Iv),
        ),
{
}

/// A decrypting run never writes the key file or the IV file.
pub proof fn lemma_decrypt_never_saves(s: RunView, r: ReportView)
    requires
        s.wf(),
        s.direction == Direction::Decrypt,
    ensures
        next(s, r).1 matches ActionView::Write { file, bytes } ==> file == FileKind::Output,
{
}

/// An encrypting run answers an unreadable key or IV file by asking for fresh
/// bytes of that slot's length.
pub proof fn lemma_encrypt_generates_missing(s: RunView)
    requires
        s.direction == Direction::Encrypt,
    ensures
        s.phase == Phase::ReadingKey ==> next(s, ReportView::Failed).1 == (ActionView::Generate {
            slot: Slot::Key,
            len: s.params.spec_key_len(),
        }),
        s.phase == Phase::ReadingIv ==> next(s, ReportView::Failed).1 == (ActionView::Generate {
            slot: Slot::Iv,
            len: s.params.spec_block_len(),
        }),
{
}

/// Whatever the cipher left in the scratch buffer, the output that is written
/// has exactly the length of the input that the cipher was given.
pub proof fn lemma_output_has_input_length(s: RunView, r: ReportView)
    requires
        s.wf(),
    ensures
        next(s, r).1 matches ActionView::Write { file, bytes } ==> (file == FileKind::Output
            ==> bytes.len() == s.input_len),
        s.phase is Transforming || s.phase is WritingKey || s.phase is WritingIv ==> next(
            s,
            r,
        ).0.input_len == s.input_len,
{
}

/// Each way in which a step ends a run that was still going, with exactly the
/// states and reports that lead to it.
pub proof fn lemma_step_failures(s: RunView, r: ReportView)
    requires
        !(s.phase is Failed),
    ensures
        next(s, r).1 == ActionView::Fail(Error::Rng) <==> r is Failed && (s.phase
            == Phase::GeneratingKey || s.phase == Phase::GeneratingIv),
        next(s, r).1 == ActionView::Fail(Error::Io(FileKind::Input)) <==> r is Failed && s.phase
            == Phase::ReadingInput,
        next(s, r).1 == ActionView::Fail(Error::Io(FileKind::Key)) <==> r is Failed && (s.phase
            == Phase::WritingKey || (s.phase == Phase::ReadingKey && s.direction
            == Direction::Decrypt)),
        next(s, r).1 == ActionView::Fail(Error::Io(FileKind::Iv)) <==> r is Failed && (s.phase
            == Phase::WritingIv || (s.phase == Phase::ReadingIv && s.direction
            == Direction::Decrypt)),
        next(s, r).1 == ActionView::Fail(Error::Io(FileKind::Output)) <==> r is Failed && s.phase
            == Phase::WritingOutput,
        (next(s, r).1 matches ActionView::Fail(e) && e is InvalidLength) <==> (r matches ReportView::Done(
            iv,
        ) && (s.phase == Phase::ReadingIv || s.phase == Phase::GeneratingIv) && length_fault(
            s.key,
            iv,
            s.params,
        ) is Some),
        next(s, r).1 == ActionView::Fail(Error::CipherSetup) <==> (r is Failed && s.phase
            == Phase::Transforming) || (r matches ReportView::Done(iv) && (s.phase
            == Phase::ReadingIv || s.phase == Phase::GeneratingIv) && length_fault(
            s.key,
            iv,
            s.params,
        ) is None && !(s.params.spec_block_len() > 0 && padded(
            s.input.len(),
            s.params.spec_block_len() as nat,
        ) <= usize::MAX)),
{
}

/// A run that is over stays as it is and repeats its verdict.
pub proof fn lemma_over_is_final(s: RunView, r: ReportView)
    requires
        s.phase is Finished || s.phase is Failed,
    ensures
        next(s, r).0 == s,
        s.phase is Finished ==> next(s, r).1 == ActionView::Finish,
        s.phase matches Phase::Failed(e) ==> next(s, r).1 == ActionView::Fail(e),
{
}

/// Cutting the scratch buffer back to the input's length leaves exactly what
/// the cipher wrote, when that is as long as the input and fits the buffer.
pub proof fn lemma_fit_recovers_written(scratch: Seq<u8>, written: Seq<u8>)
    requires
        written.len() <= scratch.len(),
    ensures
        fit(overlay(scratch, written), written.len()) == written,
{
    assert(fit(overlay(scratch, written), written.len()) =~= written);
}

/// Encrypting works with the stored key and IV where they can be read and
/// draws each one that cannot. It runs the cipher once, on that material and
/// the input, and then saves the material as it was used: a stored file is
/// rewritten with the bytes it held, a missing one receives what was drawn.
pub proof fn lemma_encrypt_provisions(params: Params, w: World, plain: Seq<u8>)
    requires
        w.files.input == Some(plain),
        w.key_in_use().len() == params.spec_key_len(),
        w.iv_in_use().len() == params.spec_block_len(),
        params.spec_block_len() > 0,
        padded(plain.len(), params.spec_block_len() as nat) <= usize::MAX,
        (w.cipher)(w.key_in_use(), w.iv_in_use(), plain).len() == plain.len(),
    ensures
        run(Direction::Encrypt, params, w).0 == ActionView::Finish,
        run(Direction::Encrypt, params, w).1 == (World {
            files: Files {
                input: Some(plain),
                output: Some((w.cipher)(w.key_in_use(), w.iv_in_use(), plain)),
                key: Some(w.key_in_use()),
                iv: Some(w.iv_in_use()),
            },
            draws: w.draws + w.draws_needed(),
            transforms: w.transforms + 1,
            ..w
        }),
{
    let block = params.spec_block_len() as nat;
    let written = (w.cipher)(w.key_in_use(), w.iv_in_use(), plain);
    lemma_padded_bounds(plain.len(), block);
    lemma_fit_recovers_written(zeros(padded(plain.len(), block)), written);
    reveal_with_fuel(drive, 10);
}

/// Decrypting runs the cipher once, on the stored key and IV and the input,
/// writes the output, draws nothing and leaves the key and IV files alone.
pub proof fn lemma_decrypt_uses_stored(
    params: Params,
    w: World,
    cipher_text: Seq<u8>,
    key: Seq<u8>,
    iv: Seq<u8>,
)
    requires
        w.files.input == Some(cipher_text),
        w.files.key == Some(key),
        w.files.iv == Some(iv),
        key.len() == params.spec_key_len(),
        iv.len() == params.spec_block_len(),
        params.spec_block_len() > 0,
        padded(cipher_text.len(), params.spec_block_len() as nat) <= usize::MAX,
        (w.cipher)(key, iv, cipher_text).len() == cipher_text.len(),
    ensures
        run(Direction::Decrypt, params, w).0 == ActionView::Finish,
        run(Direction::Decrypt, params, w).1 == (World {
            files: Files { output: Some((w.cipher)(key, iv, cipher_text)), ..w.files },
            transforms: w.transforms + 1,
            ..w
        }),
{
    let block = params.spec_block_len() as nat;
    let written = (w.cipher)(key, iv, cipher_text);
    lemma_padded_bounds(cipher_text.len(), block);
    lemma_fit_recovers_written(zeros(padded(cipher_text.len(), block)), written);
    reveal_with_fuel(drive, 10);
}

/// Decrypting where the key file or the IV file cannot be read fails with an
/// I/O error for the first of them that is missing. Nothing is drawn, the
/// cipher does not run and no file is written.
pub proof fn lemma_decrypt_needs_stored(params: Params, w: World)
    requires
        w.files.input is Some,
        w.files.key is None || w.files.iv is None,
    ensures
        run(Direction::Decrypt, params, w).0 == ActionView::Fail(
            Error::Io(
                if w.files.key is None {
                    FileKind::Key
                } else {
                    FileKind::Iv
                },
            ),
        ),
        run(Direction::Decrypt, params, w).1 == w,
{
    reveal_with_fuel(drive, 10);
}

/// In either direction, key material of the wrong length ends the run with
/// `InvalidLength` for the first slot at fault, carrying the length it should
/// have. The cipher does not run and no file is written.
pub proof fn lemma_wrong_length_ends_run(direction: Direction, params: Params, w: World)
    requires
        w.files.input is Some,
        direction == Direction::Decrypt ==> w.files.key is Some && w.files.iv is Some,
        length_fault(w.key_in_use(), w.iv_in_use(), params) is Some,
    ensures
        run(direction, params, w).0 == ActionView::Fail(
            length_fault(w.key_in_use(), w.iv_in_use(), params)->0,
        ),
        run(direction, params, w).1.files == w.files,
        run(direction, params, w).1.transforms == w.transforms,
{
    reveal_with_fuel(drive, 10);
}

/// A run whose input cannot be read fails at once with an I/O error for the
/// input, and changes nothing.
pub proof fn lemma_unreadable_input_ends_run(direction: Direction, params: Params, w: World)
    requires
        w.files.input is None,
    ensures
        run(direction, params, w).0 == ActionView::Fail(Error::Io(FileKind::Input)),
        run(direction, params, w).1 == w,
{
    reveal_with_fuel(drive, 10);
}

/// What an encrypting run writes as output is settled by the cipher, the key
/// and IV in use and the input: two worlds that agree on those get the same
/// output, whatever else they hold.
pub proof fn lemma_output_is_determined(params: Params, w1: World, w2: World, plain: Seq<u8>)
    requires
        w1.files.input == Some(plain),
        w2.files.input == Some(plain),
        w1.cipher == w2.cipher,
        w1.key_in_use() == w2.key_in_use(),
        w1.iv_in_use() == w2.iv_in_use(),
        w1.key_in_use().len() == params.spec_key_len(),
        w1.iv_in_use().len() == params.spec_block_len(),
        params.spec_block_len() > 0,
        padded(plain.len(), params.spec_block_len() as nat) <= usize::MAX,
        (w1.cipher)(w1.key_in_use(), w1.iv_in_use(), plain).len() == plain.len(),
    ensures
        run(Direction::Encrypt, params, w1).1.files.output == run(
            Direction::Encrypt,
            params,
            w2,
        ).1.files.output,
{
    lemma_encrypt_provisions(params, w1, plain);
    lemma_encrypt_provisions(params, w2, plain);
}

/// With a cipher that undoes itself under the key and IV in use, encrypting
/// and then decrypting what was written, with the key and IV files that the
/// encryption left, gives back the plaintext.
pub proof fn lemma_round_trip(params: Params, w: World, plain: Seq<u8>)
    requires
        w.files.input == Some(plain),
        w.key_in_use().len() == params.spec_key_len(),
        w.iv_in_use().len() == params.spec_block_len(),
        params.spec_block_len() > 0,
        padded(plain.len(), params.spec_block_len() as nat) <= usize::MAX,
        (w.cipher)(w.key_in_use(), w.iv_in_use(), plain).len() == plain.len(),
        (w.cipher)(
            w.key_in_use(),
            w.iv_in_use(),
            (w.cipher)(w.key_in_use(), w.iv_in_use(), plain),
        ) == plain,
    ensures
        ({
            let sealed = run(Direction::Encrypt, params, w).1;
            let carried = World {
                files: Files { input: sealed.files.output, output: None, ..sealed.files },
                ..sealed
            };
            let opened = run(Direction::Decrypt, params, carried);
            &&& opened.0 == ActionView::Finish
            &&& opened.1.files.output == Some(plain)
            &&& opened.1.files.key == Some(w.key_in_use())
            &&& opened.1.files.iv == Some(w.iv_in_use())
        }),
{
    let key = w.key_in_use();
    let iv = w.iv_in_use();
    let cipher_text = (w.cipher)(key, iv, plain);
    lemma_encrypt_provisions(params, w, plain);
    let sealed = run(Direction::Encrypt, params, w).1;
    let carried = World {
        files: Files { input: sealed.files.output, output: None, ..sealed.files },
        ..sealed
    };
    lemma_decrypt_uses_stored(params, carried, cipher_text, key, iv);
}

} // verus!
