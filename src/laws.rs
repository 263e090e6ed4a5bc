use vstd::prelude::*;
use vstd::utf8::{encode_utf8, is_ascii_chars, is_ascii_chars_encode_utf8};
use crate::cpath::has_nul;
use crate::error::{ErrorModel, ModelPart, TensorSide};
use crate::tempname::{decimal, temp_path};
use crate::load::{ActionModel, StageModel, after_load, after_remove, after_write, native_load, path_mode, tensor_mode};

verus! {

/// The outcome of a whole buffer-mode load through the temporary file `temp`
/// in which writing and removing the file both succeed and the native loader,
/// if it is called, returns `code`.
pub open spec fn buffer_mode(part: ModelPart, temp: Seq<char>, code: i32) -> Result<(), ErrorModel> {
    let (stage, action) = after_write(part, temp, Ok(()));
    let loaded = if action is CallLoader {
        after_load(part, temp, code).0->Removing_0
    } else {
        stage->Removing_0
    };
    after_remove(temp, loaded, Ok(())).1->Finish_0
}

/// A path-mode load never ends in anything but a failure when the native
/// loader reports failure (as it does for a path that names no readable
/// description), and a path that cannot cross the native boundary is refused
/// whatever the loader would have said.
pub proof fn lemma_failed_path_load_is_error(part: ModelPart, path: Seq<char>, code: i32)
    requires
        code != 0 || has_nul(encode_utf8(path)),
    ensures
        path_mode(part, path, code) is Err,
        code != 0 ==> native_load(part, path, code) == Err::<(), ErrorModel>(
            ErrorModel::LoadFailed(part, path),
        ),
{
}

/// Loading from a buffer written to `temp` gives exactly what loading from the
/// path `temp` gives, when the file steps succeed and the native loader
/// answers the same for the same file: the loader is handed the same
/// NUL-terminated path, and the result is the same.
pub proof fn lemma_buffer_mode_agrees_with_path_mode(part: ModelPart, temp: Seq<char>, code: i32)
    ensures
        buffer_mode(part, temp, code) == path_mode(part, temp, code),
        !has_nul(encode_utf8(temp)) ==> after_write(part, temp, Ok(())).1 == ActionModel::CallLoader(
            part,
            encode_utf8(temp).push(0u8),
        ),
{
}

/// The temporary file is always removed, whatever each step reported:
/// after the write, whether it succeeded or failed, either the native loader
/// is called, or the file is removed straight away; whatever the loader
/// returns, the next step is to remove the file; after the removal, whether it
/// succeeded or not, the load is over. So no load ends before the removal
/// step, and repeated loads leave no temporary files behind them.
pub proof fn lemma_temp_file_always_removed(
    part: ModelPart,
    temp: Seq<char>,
    written: Result<(), Seq<char>>,
    code: i32,
    removed: Result<(), Seq<char>>,
)
    ensures
        (after_write(part, temp, written).0 == StageModel::Loading && after_write(
            part,
            temp,
            written,
        ).1 is CallLoader) || (after_write(part, temp, written).0 is Removing && after_write(
            part,
            temp,
            written,
        ).1 == ActionModel::RemoveFile(temp)),
        after_write(part, temp, written).1 is CallLoader ==> written is Ok,
        after_load(part, temp, code).1 == ActionModel::RemoveFile(temp),
        after_load(part, temp, code).0 is Removing,
        forall|loaded: Result<(), ErrorModel>|
            #![trigger after_remove(temp, loaded, removed)]
            after_remove(temp, loaded, removed).0 == StageModel::Done && after_remove(
                temp,
                loaded,
                removed,
            ).1 is Finish,
{
}

/// Binding or reading a tensor by name always ends in a structured result:
/// a name that the loaded topology holds (the native layer returns zero, and
/// the name can cross the native boundary) is accepted, and any other name
/// fails with "not found" for that name on that side.
pub proof fn lemma_tensor_name_outcome(side: TensorSide, name: Seq<char>, code: i32)
    ensures
        tensor_mode(side, name, code) == (if code == 0 && !has_nul(encode_utf8(name)) {
            Ok(())
        } else {
            Err(ErrorModel::TensorNotFound(side, name))
        }),
{
}

/// One buffer-mode load, as the outside world answered it: the part, the
/// temporary file, how writing the buffer went, and what the native loader
/// returned if it was called.
pub struct LoadRun {
    pub part: ModelPart,
    pub temp: Seq<char>,
    pub written: Result<(), Seq<char>>,
    pub code: i32,
}

/// The file actions a buffer-mode load hands out, in order: the write that
/// starts it, then what each step asks for until the load finishes.
pub open spec fn run_file_actions(run: LoadRun) -> Seq<ActionModel> {
    let next = after_write(run.part, run.temp, run.written).1;
    if next is CallLoader {
        seq![ActionModel::WriteFile(run.temp), next, after_load(run.part, run.temp, run.code).1]
    } else {
        seq![ActionModel::WriteFile(run.temp), next]
    }
}

/// The file actions of several buffer-mode loads made one after another.
pub open spec fn runs_file_actions(runs: Seq<LoadRun>) -> Seq<ActionModel>
    decreases runs.len(),
{
    if runs.len() == 0 {
        Seq::empty()
    } else {
        runs_file_actions(runs.drop_last()) + run_file_actions(runs.last())
    }
}

/// The files present after `actions` are performed on `files`, where each
/// removal succeeds and each write leaves its file, whether it succeeded or
/// failed part way.
pub open spec fn files_after(files: Set<Seq<char>>, actions: Seq<ActionModel>) -> Set<Seq<char>>
    decreases actions.len(),
{
    if actions.len() == 0 {
        files
    } else {
        let next = match actions[0] {
            ActionModel::WriteFile(p) => files.insert(p),
            ActionModel::RemoveFile(p) => files.remove(p),
            _ => files,
        };
        files_after(next, actions.drop_first())
    }
}

proof fn lemma_files_after_concat(files: Set<Seq<char>>, a: Seq<ActionModel>, b: Seq<ActionModel>)
    ensures
        files_after(files, a + b) == files_after(files_after(files, a), b),
    decreases a.len(),
{
    if a.len() == 0 {
        assert(a + b =~= b);
    } else {
        let next = match a[0] {
            ActionModel::WriteFile(p) => files.insert(p),
            ActionModel::RemoveFile(p) => files.remove(p),
            _ => files,
        };
        assert((a + b).drop_first() =~= a.drop_first() + b);
        lemma_files_after_concat(next, a.drop_first(), b);
    }
}

proof fn lemma_run_leaves_files(files: Set<Seq<char>>, run: LoadRun)
    requires
        !files.contains(run.temp),
    ensures
        files_after(files, run_file_actions(run)) == files,
{
    let acts = run_file_actions(run);
    let with_temp = files.insert(run.temp);
    assert(with_temp.remove(run.temp) =~= files);
    assert(files_after(files, acts) == files_after(with_temp, acts.drop_first()));
    if acts.len() == 3 {
        assert(files_after(with_temp, acts.drop_first()) == files_after(
            with_temp,
            acts.drop_first().drop_first(),
        ));
        assert(files_after(with_temp, acts.drop_first().drop_first()) == files_after(
            files,
            acts.drop_first().drop_first().drop_first(),
        ));
    } else {
        assert(files_after(with_temp, acts.drop_first()) == files_after(
            files,
            acts.drop_first().drop_first(),
        ));
    }
}

/// Buffer-mode loads made one after another leave the set of files as they
/// found it, whatever each write and each native load reported, provided that
/// each temporary file did not exist before and each removal succeeds: no
/// temporary file piles up.
pub proof fn lemma_repeated_loads_leave_no_files(files: Set<Seq<char>>, runs: Seq<LoadRun>)
    requires
        forall|i: int| 0 <= i < runs.len() ==> !files.contains(#[trigger] runs[i].temp),
    ensures
        files_after(files, runs_file_actions(runs)) == files,
    decreases runs.len(),
{
    if runs.len() > 0 {
        let rest = runs.drop_last();
        assert forall|i: int| 0 <= i < rest.len() implies !files.contains(#[trigger] rest[i].temp) by {
            assert(rest[i] == runs[i]);
        }
        lemma_repeated_loads_leave_no_files(files, rest);
        lemma_files_after_concat(files, runs_file_actions(rest), run_file_actions(runs.last()));
        lemma_run_leaves_files(files, runs.last());
    }
}

/// Whether every character is a visible ASCII character.
pub open spec fn visible_ascii(chars: Seq<char>) -> bool {
    forall|i: int| 0 <= i < chars.len() ==> '!' <= #[trigger] chars[i] <= '~'
}

proof fn lemma_decimal_visible(n: nat)
    ensures
        visible_ascii(decimal(n)),
    decreases n,
{
    if n >= 10 {
        lemma_decimal_visible(n / 10);
        assert(visible_ascii(decimal(n)));
    }
}

/// The temporary file names that buffer-mode loads use can always cross the
/// native boundary, so such a load always reaches the native loader once the
/// buffer is written, with the same path that a path-mode load would hand it.
pub proof fn lemma_temp_path_reaches_loader(part: ModelPart, id: nat)
    ensures
        !has_nul(encode_utf8(temp_path(part, id))),
        after_write(part, temp_path(part, id), Ok(())).1 == ActionModel::CallLoader(
            part,
            encode_utf8(temp_path(part, id)).push(0u8),
        ),
{
    let t = temp_path(part, id);
    lemma_decimal_visible(id);
    assert(visible_ascii(t));
    assert(is_ascii_chars(t));
    is_ascii_chars_encode_utf8(t);
    assert forall|i: int| 0 <= i < encode_utf8(t).len() implies encode_utf8(t)[i] != 0u8 by {
        assert(t[i] as u8 == encode_utf8(t)[i]);
    }
}

} // verus!
