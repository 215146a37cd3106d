use vstd::prelude::*;

use crate::config::{ConfigObject, ConfigTrait};
use crate::template::{mod_views, JsonModTemplate, ModView};

verus! {

/// The mods that a run should install: those of the catalog, in catalog
/// order, that the user selected and that are not recorded as installed.
pub open spec fn pending_mods(
    mods: Seq<ModView>,
    selected: Seq<bool>,
    installed: Seq<Seq<char>>,
) -> Seq<ModView>
    decreases mods.len(),
{
    if mods.len() == 0 {
        seq![]
    } else {
        let rest = pending_mods(mods.drop_last(), selected, installed);
        let last = mods.last();
        if selected[mods.len() - 1] && !installed.contains(last.checksum) {
            rest.push(last)
        } else {
            rest
        }
    }
}

/// Builds the task list of a run from the catalog and the user's selection
/// (`selected[i]` is the check mark of `mod_list[i]`).
pub fn get_task_list(
    selected: &Vec<bool>,
    config: &ConfigObject,
    mod_list: &Vec<JsonModTemplate>,
) -> (r: Vec<JsonModTemplate>)
    requires
        selected@.len() == mod_list@.len(),
    ensures
        mod_views(r@) == pending_mods(
            mod_views(mod_list@),
            selected@,
            config.settings().installed_mods_md5,
        ),
{
    let mut task_list: Vec<JsonModTemplate> = Vec::new();
    let mut i: usize = 0;
    while i < mod_list.len()
        invariant
            i <= mod_list.len(),
            selected@.len() == mod_list@.len(),
            mod_views(task_list@) == pending_mods(
                mod_views(mod_list@).take(i as int),
                selected@,
                config.settings().installed_mods_md5,
            ),
        decreases mod_list.len() - i,
    {
        let entry = &mod_list[i];
        let chosen = selected[i];
        let installed = config.is_mod_installed(&entry.checksum_md5);
        let ghost before = task_list@;
        if chosen && !installed {
            task_list.push(entry.duplicate());
            assert(mod_views(task_list@) =~= mod_views(before).push(entry@));
        }
        assert(mod_views(mod_list@).take(i + 1).drop_last() =~= mod_views(mod_list@).take(i as int));
        i = i + 1;
    }
    assert(mod_views(mod_list@).take(i as int) =~= mod_views(mod_list@));
    task_list
}

/// A mod whose checksum is recorded as installed never enters the task list
/// of a run.
pub proof fn lemma_installed_mods_not_queued(
    mods: Seq<ModView>,
    selected: Seq<bool>,
    installed: Seq<Seq<char>>,
)
    requires
        selected.len() == mods.len(),
    ensures
        forall|j: int|
            0 <= j < pending_mods(mods, selected, installed).len() ==> !installed.contains(
                #[trigger] pending_mods(mods, selected, installed)[j].checksum,
            ),
{
    lemma_pending_not_installed(mods, selected, installed);
}

proof fn lemma_pending_not_installed(
    mods: Seq<ModView>,
    selected: Seq<bool>,
    installed: Seq<Seq<char>>,
)
    requires
        mods.len() <= selected.len(),
    ensures
        forall|j: int|
            0 <= j < pending_mods(mods, selected, installed).len() ==> !installed.contains(
                #[trigger] pending_mods(mods, selected, installed)[j].checksum,
            ),
    decreases mods.len(),
{
    if mods.len() > 0 {
        lemma_pending_not_installed(mods.drop_last(), selected, installed);
        let rest = pending_mods(mods.drop_last(), selected, installed);
        let all = pending_mods(mods, selected, installed);
        assert forall|j: int| 0 <= j < all.len() implies !installed.contains(
            #[trigger] all[j].checksum,
        ) by {
            if j < rest.len() {
                assert(all[j] == rest[j]);
            }
        }
    }
}

} // verus!
