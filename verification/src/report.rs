//! The report on the repositories whose upstream has moved on.

use crate::order::{sort_by_name, sorted_by_name, stable_sort};
use crate::style::{Palette, PaletteView};
use crate::update_info::{info_text, UpdateInfo};
use vstd::prelude::*;
use vstd::string::StringExecFns;

verus! {

/// The line that opens a report with something in it.
pub open spec fn report_heading(p: PaletteView) -> Seq<char> {
    p.bold + "The following packages have upstream changes:"@ + p.reset + "\n"@
}

/// The whole of a report on nothing.
pub open spec fn nothing_to_report() -> Seq<char> {
    "There are currently no packages with upstream changes\n"@
}

/// The blocks of `infos`, one after the other, each closed by an empty
/// line.
pub open spec fn report_blocks(p: PaletteView, infos: Seq<UpdateInfo>) -> Seq<char>
    decreases infos.len(),
{
    if infos.len() == 0 {
        Seq::empty()
    } else {
        report_blocks(p, infos.drop_last()) + info_text(p, infos.last()@) + "\n"@
    }
}

/// The report on `infos`, taken in the order they are in: the heading, an
/// empty line and the blocks, or the one line that says there is nothing.
pub open spec fn report_text(p: PaletteView, infos: Seq<UpdateInfo>) -> Seq<char> {
    if infos.len() == 0 {
        nothing_to_report()
    } else {
        report_heading(p) + "\n"@ + report_blocks(p, infos)
    }
}

/// The report on the repositories of `update_infos`, in ascending order of
/// their names whatever order they came in.
pub fn update_report(update_infos: Vec<UpdateInfo>, palette: &Palette) -> (text: String)
    ensures
        text@ == report_text(palette@, stable_sort(update_infos@)),
        sorted_by_name(stable_sort(update_infos@)),
        update_infos@.len() == 0 ==> text@ == nothing_to_report(),
{
    if update_infos.len() == 0 {
        return String::from_str("There are currently no packages with upstream changes\n");
    }
    let sorted = sort_by_name(update_infos);
    let mut text = String::new();
    text.append(palette.bold.as_str());
    text.append("The following packages have upstream changes:");
    text.append(palette.reset.as_str());
    text.append("\n");
    text.append("\n");
    let ghost head = text@;
    let mut i: usize = 0;
    while i < sorted.len()
        invariant
            i <= sorted.len(),
            text@ == head + report_blocks(palette@, sorted@.take(i as int)),
        decreases sorted.len() - i,
    {
        assert(sorted@.take(i + 1).drop_last() =~= sorted@.take(i as int));
        let block = sorted[i].render(palette);
        text.append(block.as_str());
        text.append("\n");
        i = i + 1;
    }
    assert(sorted@.take(i as int) =~= sorted@);
    text
}

} // verus!
