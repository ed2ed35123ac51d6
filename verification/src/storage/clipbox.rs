use vstd::prelude::*;

use crate::constants::APP_NAME;
use crate::tools::encoding::{
    decode_utf16_lossy, decode_wide_lossy, string_from_chars, trim_end_nul, trim_end_nul_chars,
};

verus! {

/// The character of a decimal digit.
pub open spec fn digit_char(d: nat) -> char {
    (48 + d) as char
}

/// The decimal representation of `n`, most significant digit first.
pub open spec fn decimal(n: nat) -> Seq<char>
    decreases n,
{
    if n < 10 {
        seq![digit_char(n)]
    } else {
        decimal(n / 10).push(digit_char(n % 10))
    }
}

/// The name of the box directory made at `secs` seconds after the Unix
/// epoch: `box_` followed by the decimal form of `secs`.
pub open spec fn box_name_of(secs: nat) -> Seq<char> {
    seq!['b', 'o', 'x', '_'] + decimal(secs)
}

proof fn lemma_decimal_len(n: nat)
    ensures
        decimal(n).len() >= 1,
        n >= 10 ==> decimal(n).len() >= 2,
    decreases n,
{
    if n >= 10 {
        lemma_decimal_len(n / 10);
    }
}

proof fn lemma_digit_char_injective(a: nat, b: nat)
    requires
        a < 10,
        b < 10,
        digit_char(a) == digit_char(b),
    ensures
        a == b,
{
    assert((digit_char(a) as u32) == 48 + a);
    assert((digit_char(b) as u32) == 48 + b);
}

/// Distinct numbers have distinct decimal forms.
pub proof fn lemma_decimal_injective(a: nat, b: nat)
    requires
        decimal(a) == decimal(b),
    ensures
        a == b,
    decreases a,
{
    lemma_decimal_len(a);
    lemma_decimal_len(b);
    if a < 10 && b < 10 {
        assert(decimal(a)[0] == digit_char(a));
        assert(decimal(b)[0] == digit_char(b));
        lemma_digit_char_injective(a, b);
    } else if a >= 10 && b >= 10 {
        let da = decimal(a);
        let db = decimal(b);
        assert(da.last() == digit_char(a % 10));
        assert(db.last() == digit_char(b % 10));
        lemma_digit_char_injective(a % 10, b % 10);
        assert(da.drop_last() =~= decimal(a / 10));
        assert(db.drop_last() =~= decimal(b / 10));
        lemma_decimal_injective(a / 10, b / 10);
    }
}

/// Boxes made at distinct times have distinct names.
pub proof fn lemma_box_name_injective(a: nat, b: nat)
    requires
        box_name_of(a) == box_name_of(b),
    ensures
        a == b,
{
    assert(box_name_of(a).skip(4) =~= decimal(a));
    assert(box_name_of(b).skip(4) =~= decimal(b));
    lemma_decimal_injective(a, b);
}

/// Appends the decimal form of `n` to `out`.
fn push_decimal(out: &mut Vec<char>, n: u64)
    ensures
        final(out)@ == old(out)@ + decimal(n as nat),
    decreases n,
{
    if n >= 10 {
        push_decimal(out, n / 10);
    }
    let d = (n % 10) as u8;
    let c = (48u8 + d) as char;
    proof {
        assert(c == digit_char((n % 10) as nat));
    }
    out.push(c);
    proof {
        if n >= 10 {
            assert(old(out)@ + decimal((n / 10) as nat) + seq![c] =~= old(out)@ + decimal(n as nat));
        } else {
            assert(decimal(n as nat) =~= seq![c]);
            assert(old(out)@.push(c) =~= old(out)@ + decimal(n as nat));
        }
    }
}

/// The name of the box directory made at `secs` seconds after the Unix epoch.
pub fn box_name(secs: u64) -> (res: String)
    ensures
        res@ == box_name_of(secs as nat),
{
    let mut cs: Vec<char> = Vec::new();
    cs.push('b');
    cs.push('o');
    cs.push('x');
    cs.push('_');
    assert(cs@ =~= seq!['b', 'o', 'x', '_']);
    push_decimal(&mut cs, secs);
    string_from_chars(cs.as_slice())
}

/// The file name held in the buffer that `DragQueryFileW` filled: the buffer
/// decoded with unpaired surrogates replaced by U+FFFD, without its trailing
/// NUL characters.
pub fn dropped_file_name(buffer: &[u16]) -> (res: String)
    ensures
        res@ == trim_end_nul(decode_utf16_lossy(buffer@)),
{
    let mut cs = decode_wide_lossy(buffer);
    trim_end_nul_chars(&mut cs);
    string_from_chars(cs.as_slice())
}

/// A copy of a path.
pub fn clone_path(p: &Vec<String>) -> (res: Vec<String>)
    ensures
        res.deep_view() == p.deep_view(),
{
    let mut res: Vec<String> = Vec::new();
    let n = p.len();
    let mut i: usize = 0;
    while i < n
        invariant
            n == p@.len(),
            i <= n,
            res@.len() == i,
            forall|j: int| 0 <= j < i ==> #[trigger] res@[j]@ == p@[j]@,
        decreases n - i,
    {
        res.push(p[i].clone());
        i = i + 1;
    }
    assert(res.deep_view() =~= p.deep_view());
    res
}

/// `p` joined with the single name `name`.
pub fn join_name(p: &Vec<String>, name: &String) -> (res: Vec<String>)
    ensures
        res.deep_view() == p.deep_view().push(name@),
{
    let mut res = clone_path(p);
    res.push(name.clone());
    assert(res.deep_view() =~= p.deep_view().push(name@));
    res
}

/// The application's data directory inside the local application data
/// directory `local_app_data`: the latter joined with the application name.
pub fn app_data_dir(local_app_data: &Vec<String>) -> (res: Vec<String>)
    ensures
        res.deep_view() == local_app_data.deep_view().push(APP_NAME@),
{
    let name = APP_NAME.to_owned();
    join_name(local_app_data, &name)
}

/// A box: the directory into which dropped files and folders are copied.
pub struct ClipBox {
    /// Location of the box directory.
    pub path: Vec<String>,
    /// The directory that a copy into the box currently works in.
    pub curr_path: Vec<String>,
}

/// One entry of a folder being copied: its name, and whether it is a folder.
pub struct DirEntryInfo {
    pub name: String,
    pub is_dir: bool,
}

impl View for DirEntryInfo {
    type V = (Seq<char>, bool);

    open spec fn view(&self) -> (Seq<char>, bool) {
        (self.name@, self.is_dir)
    }
}

/// A step of copying a file or folder into a box.
pub enum CopyStep {
    /// Copy the file at `from` to `to`.
    CopyFile { from: Vec<String>, to: Vec<String> },
    /// Create the directory `dir` with all its missing parents.
    CreateDirAll { dir: Vec<String> },
    /// Copy the folder at `from` into the directory `to`, by the same plan.
    CopyFolder { to: Vec<String>, from: Vec<String> },
}

/// A copy step, over path components.
pub enum PlannedStep {
    CopyFile { from: Seq<Seq<char>>, to: Seq<Seq<char>> },
    CreateDirAll { dir: Seq<Seq<char>> },
    CopyFolder { to: Seq<Seq<char>>, from: Seq<Seq<char>> },
}

impl View for CopyStep {
    type V = PlannedStep;

    open spec fn view(&self) -> PlannedStep {
        match self {
            CopyStep::CopyFile { from, to } => PlannedStep::CopyFile {
                from: from.deep_view(),
                to: to.deep_view(),
            },
            CopyStep::CreateDirAll { dir } => PlannedStep::CreateDirAll { dir: dir.deep_view() },
            CopyStep::CopyFolder { to, from } => PlannedStep::CopyFolder {
                to: to.deep_view(),
                from: from.deep_view(),
            },
        }
    }
}

/// What is done with one entry of a folder copied from `from` into `to`: a
/// sub-folder is copied into the like-named directory of `to`, a file to the
/// like-named file of `to`.
pub open spec fn entry_step(
    to: Seq<Seq<char>>,
    from: Seq<Seq<char>>,
    entry: (Seq<char>, bool),
) -> PlannedStep {
    if entry.1 {
        PlannedStep::CopyFolder { to: to.push(entry.0), from: from.push(entry.0) }
    } else {
        PlannedStep::CopyFile { from: from.push(entry.0), to: to.push(entry.0) }
    }
}

/// The steps of copying `from` into `to`.  A file is copied into `to`, under
/// its own name (the last component of `from`).  For a folder, `to` is first created when it is not a directory, then each
/// entry of the folder is handled in order.
pub open spec fn copy_plan_of(
    to: Seq<Seq<char>>,
    from: Seq<Seq<char>>,
    from_is_file: bool,
    to_is_dir: bool,
    entries: Seq<(Seq<char>, bool)>,
) -> Seq<PlannedStep> {
    if from_is_file {
        seq![PlannedStep::CopyFile { from, to: to.push(from.last()) }]
    } else {
        let start = if to_is_dir {
            Seq::<PlannedStep>::empty()
        } else {
            seq![PlannedStep::CreateDirAll { dir: to }]
        };
        start + entries.map_values(|e: (Seq<char>, bool)| entry_step(to, from, e))
    }
}

/// The directory or file that a copy step writes.
pub open spec fn step_target(step: PlannedStep) -> Seq<Seq<char>> {
    match step {
        PlannedStep::CopyFile { from, to } => to,
        PlannedStep::CreateDirAll { dir } => dir,
        PlannedStep::CopyFolder { to, from } => to,
    }
}

/// How many steps come before those of a folder's entries: one when the
/// destination directory is to be created.
pub open spec fn plan_offset(to_is_dir: bool) -> int {
    if to_is_dir {
        0
    } else {
        1
    }
}

/// Whether the path `p` is `dir` or lies inside it.
pub open spec fn within(p: Seq<Seq<char>>, dir: Seq<Seq<char>>) -> bool {
    dir.len() <= p.len() && p.take(dir.len() as int) == dir
}

/// Copying into `to` writes nothing outside `to`: every step's target is
/// `to` or lies inside it; a file goes to the like-named file of `to`; for a folder, the steps other than creating
/// `to` target its direct children, one per entry, in the order of the entries.
pub proof fn lemma_copies_stay_inside_destination(
    to: Seq<Seq<char>>,
    from: Seq<Seq<char>>,
    from_is_file: bool,
    to_is_dir: bool,
    entries: Seq<(Seq<char>, bool)>,
)
    ensures
        forall|i: int|
            0 <= i < copy_plan_of(to, from, from_is_file, to_is_dir, entries).len() ==> within(
                step_target(#[trigger] copy_plan_of(to, from, from_is_file, to_is_dir, entries)[i]),
                to,
            ),
        from_is_file ==> copy_plan_of(to, from, from_is_file, to_is_dir, entries).len() == 1,
        from_is_file ==> step_target(copy_plan_of(to, from, from_is_file, to_is_dir, entries)[0])
            == to.push(from.last()),
        !from_is_file ==> copy_plan_of(to, from, from_is_file, to_is_dir, entries).len() == entries.len()
            + plan_offset(to_is_dir),
        !from_is_file ==> forall|k: int|
            #![trigger entries[k]]
            0 <= k < entries.len() ==> step_target(
                copy_plan_of(to, from, from_is_file, to_is_dir, entries)[k + plan_offset(to_is_dir)],
            ) == to.push(entries[k].0),
{
    let plan = copy_plan_of(to, from, from_is_file, to_is_dir, entries);
    assert(to.take(to.len() as int) =~= to);
    if !from_is_file {
        let off = plan_offset(to_is_dir);
        assert forall|k: int| #![trigger entries[k]] 0 <= k < entries.len() implies step_target(plan[k + off]) == to.push(
            entries[k].0,
        ) by {
            assert(plan[k + off] == entry_step(to, from, entries[k]));
        }
        assert forall|i: int| 0 <= i < plan.len() implies within(step_target(#[trigger] plan[i]), to) by {
            if i >= off {
                let k = i - off;
                assert(plan[k + off] == entry_step(to, from, entries[k]));
                assert(to.push(entries[k].0).take(to.len() as int) =~= to);
            }
        }
    } else {
        assert(to.push(from.last()).take(to.len() as int) =~= to);
    }
}

/// Copying a folder handles each entry by its kind alone: a sub-folder is
/// copied, as a folder, from the like-named child of `from` into the
/// like-named child of `to`; anything else is copied as a file between the
/// same two paths.  Nothing about the entry's name other than the name
/// itself enters the step.
pub proof fn lemma_entry_steps_follow_kind(
    to: Seq<Seq<char>>,
    from: Seq<Seq<char>>,
    to_is_dir: bool,
    entries: Seq<(Seq<char>, bool)>,
)
    ensures
        forall|k: int|
            #![trigger entries[k]]
            0 <= k < entries.len() ==> {
                let step = copy_plan_of(to, from, false, to_is_dir, entries)[k + plan_offset(to_is_dir)];
                &&& entries[k].1 ==> step == (PlannedStep::CopyFolder {
                    to: to.push(entries[k].0),
                    from: from.push(entries[k].0),
                })
                &&& !entries[k].1 ==> step == (PlannedStep::CopyFile {
                    from: from.push(entries[k].0),
                    to: to.push(entries[k].0),
                })
            },
{
    let plan = copy_plan_of(to, from, false, to_is_dir, entries);
    let off = plan_offset(to_is_dir);
    assert forall|k: int| #![trigger entries[k]] 0 <= k < entries.len() implies {
        let step = plan[k + off];
        &&& entries[k].1 ==> step == (PlannedStep::CopyFolder {
            to: to.push(entries[k].0),
            from: from.push(entries[k].0),
        })
        &&& !entries[k].1 ==> step == (PlannedStep::CopyFile {
            from: from.push(entries[k].0),
            to: to.push(entries[k].0),
        })
    } by {
        assert(plan[k + off] == entry_step(to, from, entries[k]));
    }
}

impl ClipBox {
    /// The box made at `secs` seconds after the Unix epoch in the directory
    /// `base`: its path is `base` joined with the box name.
    pub fn new(base: &Vec<String>, secs: u64) -> (res: ClipBox)
        ensures
            res.path.deep_view() == base.deep_view().push(box_name_of(secs as nat)),
            res.curr_path.deep_view() == res.path.deep_view(),
    {
        let name = box_name(secs);
        let path = join_name(base, &name);
        let curr_path = clone_path(&path);
        ClipBox { path, curr_path }
    }

    /// The steps of copying the file or folder `from_dir` into `to_dir`, given
    /// whether `from_dir` is a file, whether `to_dir` is a directory, and, for
    /// a folder, its entries.  `from_dir` must have a last component, its name.
    pub fn copy_plan(
        &self,
        to_dir: &Vec<String>,
        from_dir: &Vec<String>,
        from_is_file: bool,
        to_is_dir: bool,
        entries: &Vec<DirEntryInfo>,
    ) -> (res: Vec<CopyStep>)
        requires
            from_dir@.len() > 0,
        ensures
            res@.len() == copy_plan_of(
                to_dir.deep_view(),
                from_dir.deep_view(),
                from_is_file,
                to_is_dir,
                entries@.map_values(|e: DirEntryInfo| e@),
            ).len(),
            forall|i: int|
                0 <= i < res@.len() ==> #[trigger] res@[i]@ == copy_plan_of(
                    to_dir.deep_view(),
                    from_dir.deep_view(),
                    from_is_file,
                    to_is_dir,
                    entries@.map_values(|e: DirEntryInfo| e@),
                )[i],
    {
        let ghost plan = copy_plan_of(
            to_dir.deep_view(),
            from_dir.deep_view(),
            from_is_file,
            to_is_dir,
            entries@.map_values(|e: DirEntryInfo| e@),
        );
        let mut steps: Vec<CopyStep> = Vec::new();
        if from_is_file {
            let name = &from_dir[from_dir.len() - 1];
            steps.push(CopyStep::CopyFile { from: clone_path(from_dir), to: join_name(to_dir, name) });
            return steps;
        }
        let start: usize = if to_is_dir {
            0
        } else {
            steps.push(CopyStep::CreateDirAll { dir: clone_path(to_dir) });
            1
        };
        let n = entries.len();
        let mut i: usize = 0;
        while i < n
            invariant
                n == entries@.len(),
                i <= n,
                !from_is_file,
                start == (if to_is_dir { 0usize } else { 1usize }),
                plan == copy_plan_of(
                    to_dir.deep_view(),
                    from_dir.deep_view(),
                    from_is_file,
                    to_is_dir,
                    entries@.map_values(|e: DirEntryInfo| e@),
                ),
                plan.len() == start + n,
                steps@.len() == start + i,
                forall|j: int| 0 <= j < steps@.len() ==> #[trigger] steps@[j]@ == plan[j],
            decreases n - i,
        {
            let entry = &entries[i];
            let step = if entry.is_dir {
                CopyStep::CopyFolder {
                    to: join_name(to_dir, &entry.name),
                    from: join_name(from_dir, &entry.name),
                }
            } else {
                CopyStep::CopyFile {
                    from: join_name(from_dir, &entry.name),
                    to: join_name(to_dir, &entry.name),
                }
            };
            assert(step@ == plan[start + i]);
            steps.push(step);
            i = i + 1;
        }
        steps
    }
}

} // verus!
