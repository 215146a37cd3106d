use vstd::prelude::*;
use vstd::string::*;

verus! {

/// One move: an entry of the unpacked tree, relative to the unpack
/// directory, and its destination, relative to the installation root.
pub struct PlacementInstruction {
    pub source_path: String,
    pub target_path: String,
}

/// A path of the listing that names an entry directly under the unpack
/// directory: not empty, without a `/` separator.
pub open spec fn is_top_level(path: Seq<char>) -> bool {
    path.len() > 0 && !path.contains('/')
}

/// The top-level entries of a listing, in listing order.
pub open spec fn top_level_entries(listing: Seq<Seq<char>>) -> Seq<Seq<char>>
    decreases listing.len(),
{
    if listing.len() == 0 {
        seq![]
    } else {
        let rest = top_level_entries(listing.drop_last());
        if is_top_level(listing.last()) {
            rest.push(listing.last())
        } else {
            rest
        }
    }
}

/// The error given for an unpacked tree without any content.
pub open spec fn no_content_message() -> Seq<char> {
    "archive holds no content"@
}

fn is_top_level_path(path: &String) -> (r: bool)
    ensures
        r == is_top_level(path@),
{
    let s = path.as_str();
    let n = s.unicode_len();
    if n == 0 {
        return false;
    }
    let mut i: usize = 0;
    while i < n
        invariant
            n == s@.len(),
            s@ == path@,
            i <= n,
            forall|j: int| 0 <= j < i ==> s@[j] != '/',
        decreases n - i,
    {
        if s.get_char(i) == '/' {
            assert(path@[i as int] == '/');
            return false;
        }
        i = i + 1;
    }
    true
}

/// Turns the recursive listing of an unpacked archive (paths relative to the
/// unpack directory, `/` between components) into placement instructions.
///
/// The rule here is an assumption: that an archive is laid out as the
/// installation tree itself, so that each top-level entry moves, whole, to
/// the same name under the installation root. It does not tell one kind of
/// mod content from another; a classification by the application's own
/// directory conventions would replace it. Top-level entries never nest in one another, so the
/// instructions can be applied in any order; they keep the listing's.
/// A listing without top-level entries is not a layout this knows.
pub fn determine_install_tasks(listing: &Vec<String>) -> (r: Result<
    Vec<PlacementInstruction>,
    String,
>)
    ensures
        r is Ok <==> top_level_entries(listing.deep_view()).len() > 0,
        match r {
            Ok(v) => {
                &&& v@.len() == top_level_entries(listing.deep_view()).len()
                &&& forall|i: int|
                    0 <= i < v@.len() ==> (#[trigger] v@[i]).source_path@ == top_level_entries(
                        listing.deep_view(),
                    )[i] && v@[i].target_path@ == top_level_entries(listing.deep_view())[i]
            },
            Err(e) => e@ == no_content_message(),
        },
{
    let mut tasks: Vec<PlacementInstruction> = Vec::new();
    let mut i: usize = 0;
    while i < listing.len()
        invariant
            i <= listing.len(),
            tasks@.len() == top_level_entries(listing.deep_view().take(i as int)).len(),
            forall|k: int|
                0 <= k < tasks@.len() ==> (#[trigger] tasks@[k]).source_path@ == top_level_entries(
                    listing.deep_view().take(i as int),
                )[k] && tasks@[k].target_path@ == top_level_entries(
                    listing.deep_view().take(i as int),
                )[k],
        decreases listing.len() - i,
    {
        let ghost before = top_level_entries(listing.deep_view().take(i as int));
        assert(listing.deep_view().take(i + 1).drop_last() =~= listing.deep_view().take(i as int));
        assert(listing.deep_view().take(i + 1).last() == listing[i as int]@);
        if is_top_level_path(&listing[i]) {
            let instruction = PlacementInstruction {
                source_path: listing[i].clone(),
                target_path: listing[i].clone(),
            };
            tasks.push(instruction);
            assert(forall|k: int| 0 <= k < before.len() ==> #[trigger] before.push(listing[i as int]@)[k] == before[k]);
        }
        i = i + 1;
    }
    assert(listing.deep_view().take(i as int) =~= listing.deep_view());
    if tasks.len() == 0 {
        Err(String::from_str("archive holds no content"))
    } else {
        Ok(tasks)
    }
}

} // verus!
