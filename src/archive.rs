use vstd::prelude::*;
use crate::task::ArchiveFormat;

verus! {

/// One item found under a directory being archived: its path relative to
/// that directory, with `/` between components, and whether it is a directory.
#[derive(Debug)]
pub struct WalkEntry {
    pub rel: String,
    pub is_dir: bool,
}

/// One path handed to an archive task. `name` is the path's last component;
/// a directory comes with everything under it, each sub-directory before
/// its own contents.
#[derive(Debug)]
pub enum ArchiveInput {
    File { path: String, name: String },
    Dir { path: String, name: String, contents: Vec<WalkEntry> },
}

/// One entry to write: its name inside the archive, the file or directory it
/// is read from, and whether it is a directory entry.
#[derive(Debug)]
pub struct ArchiveEntry {
    pub name: String,
    pub source: String,
    pub is_dir: bool,
}

impl View for ArchiveEntry {
    type V = (Seq<char>, Seq<char>, bool);

    open spec fn view(&self) -> (Seq<char>, Seq<char>, bool) {
        (self.name@, self.source@, self.is_dir)
    }
}

/// `a/b`.
pub open spec fn join(a: Seq<char>, b: Seq<char>) -> Seq<char> {
    a + seq!['/'] + b
}

/// The entry for an item under directory `dir`, named below `prefix`
/// (or by its relative path alone when there is no prefix).
pub open spec fn walk_entry(
    dir: Seq<char>,
    prefix: Option<Seq<char>>,
    e: WalkEntry,
) -> (Seq<char>, Seq<char>, bool) {
    let name = match prefix {
        Some(p) => join(p, e.rel@),
        None => e.rel@,
    };
    (name, join(dir, e.rel@), e.is_dir)
}

/// The entries one input gives. In a zip a file is named by its last
/// component and a directory's items by their path relative to it, without
/// the directory's own name. In a tar a file is named by its path as given,
/// and a directory gives an entry under its own name, then its items below
/// that name.
pub open spec fn entries_of(input: ArchiveInput, format: ArchiveFormat) -> Seq<
    (Seq<char>, Seq<char>, bool),
> {
    match input {
        ArchiveInput::File { path, name } => if format is Zip {
            seq![(name@, path@, false)]
        } else {
            seq![(path@, path@, false)]
        },
        ArchiveInput::Dir { path, name, contents } => if format is Zip {
            contents@.map_values(|e: WalkEntry| walk_entry(path@, None, e))
        } else {
            seq![(name@, path@, true)] + contents@.map_values(
                |e: WalkEntry| walk_entry(path@, Some(name@), e),
            )
        },
    }
}

/// The entries of all inputs, input by input.
pub open spec fn plan_of(inputs: Seq<ArchiveInput>, format: ArchiveFormat) -> Seq<
    (Seq<char>, Seq<char>, bool),
>
    decreases inputs.len(),
{
    if inputs.len() == 0 {
        Seq::empty()
    } else {
        plan_of(inputs.drop_last(), format) + entries_of(inputs.last(), format)
    }
}

fn join_paths(a: &String, b: &String) -> (r: String)
    ensures
        r@ == join(a@, b@),
{
    let mut r = a.clone();
    r.append("/");
    r.append(b.as_str());
    proof {
        reveal_strlit("/");
    }
    assert(r@ =~= join(a@, b@));
    r
}

/// Appends the entries of directory `dir`'s items to `out`.
fn push_walk(
    out: &mut Vec<ArchiveEntry>,
    dir: &String,
    prefix: Option<&String>,
    contents: &Vec<WalkEntry>,
)
    ensures
        final(out)@.len() == old(out)@.len() + contents@.len(),
        forall|k: int| 0 <= k < old(out)@.len() ==> #[trigger] final(out)@[k] == old(out)@[k],
        forall|k: int|
            0 <= k < contents@.len() ==> #[trigger] final(out)@[old(out)@.len() + k]@
                == walk_entry(
                dir@,
                match prefix {
                    Some(p) => Some(p@),
                    None => None,
                },
                contents@[k],
            ),
{
    let ghost pre = match prefix {
        Some(p) => Some(p@),
        None => None::<Seq<char>>,
    };
    let ghost start = out@.len();
    let mut k: usize = 0;
    while k < contents.len()
        invariant
            k <= contents@.len(),
            out@.len() == start + k,
            start == old(out)@.len(),
            pre == match prefix {
                Some(p) => Some(p@),
                None => None::<Seq<char>>,
            },
            forall|j: int| 0 <= j < start ==> #[trigger] out@[j] == old(out)@[j],
            forall|j: int|
                0 <= j < k ==> #[trigger] out@[start + j]@ == walk_entry(dir@, pre, contents@[j]),
        decreases contents@.len() - k,
    {
        let e = &contents[k];
        let name = match prefix {
            Some(p) => join_paths(p, &e.rel),
            None => e.rel.clone(),
        };
        let entry = ArchiveEntry { name, source: join_paths(dir, &e.rel), is_dir: e.is_dir };
        assert(entry@ == walk_entry(dir@, pre, contents@[k as int]));
        out.push(entry);
        k += 1;
    }
}

/// The entries to write for `inputs`, in order, in the given format.
pub fn archive_entries(inputs: &Vec<ArchiveInput>, format: ArchiveFormat) -> (r: Vec<
    ArchiveEntry,
>)
    ensures
        r@.len() == plan_of(inputs@, format).len(),
        forall|k: int| 0 <= k < r@.len() ==> #[trigger] r@[k]@ == plan_of(inputs@, format)[k],
{
    let mut r: Vec<ArchiveEntry> = Vec::new();
    let mut i: usize = 0;
    while i < inputs.len()
        invariant
            i <= inputs@.len(),
            r@.len() == plan_of(inputs@.subrange(0, i as int), format).len(),
            forall|k: int|
                0 <= k < r@.len() ==> #[trigger] r@[k]@ == plan_of(
                    inputs@.subrange(0, i as int),
                    format,
                )[k],
        decreases inputs@.len() - i,
    {
        let ghost before = r@;
        let ghost done = plan_of(inputs@.subrange(0, i as int), format);
        let ghost add = entries_of(inputs@[i as int], format);
        assert(inputs@.subrange(0, i + 1).drop_last() =~= inputs@.subrange(0, i as int));
        match &inputs[i] {
            ArchiveInput::File { path, name } => {
                let entry_name = match format {
                    ArchiveFormat::Zip => name.clone(),
                    _ => path.clone(),
                };
                r.push(ArchiveEntry { name: entry_name, source: path.clone(), is_dir: false });
                assert(add.len() == 1);
                assert(r@[before.len() as int]@ == add[0]);
            },
            ArchiveInput::Dir { path, name, contents } => {
                match format {
                    ArchiveFormat::Zip => {
                        push_walk(&mut r, path, None, contents);
                        assert forall|k: int| before.len() <= k < r@.len() implies #[trigger] r@[k]@
                            == add[k - before.len()] by {
                            assert(r@[before.len() + (k - before.len())] == r@[k]);
                        }
                    },
                    _ => {
                        r.push(ArchiveEntry { name: name.clone(), source: path.clone(), is_dir: true });
                        let ghost mid = r@;
                        push_walk(&mut r, path, Some(name), contents);
                        assert forall|k: int| before.len() <= k < r@.len() implies #[trigger] r@[k]@
                            == add[k - before.len()] by {
                            if k > before.len() {
                                assert(r@[mid.len() + (k - mid.len())] == r@[k]);
                            }
                        }
                    },
                }
            },
        }
        assert forall|k: int| 0 <= k < r@.len() implies #[trigger] r@[k]@ == plan_of(
            inputs@.subrange(0, i + 1),
            format,
        )[k] by {
            assert(plan_of(inputs@.subrange(0, i + 1), format) == done + add);
            if k < before.len() {
                assert(r@[k] == before[k]);
            }
        }
        i += 1;
    }
    assert(inputs@.subrange(0, i as int) =~= inputs@);
    r
}

} // verus!
