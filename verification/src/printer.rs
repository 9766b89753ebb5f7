//! Printing items as newline-delimited JSON.
use vstd::prelude::*;

use crate::channel::Channel;
use crate::item::{Item, ItemView};

verus! {

/// What a failure to render an item is reported with.
pub const UNPRINTABLE_TEXT: &'static str = "Failed to serialize span to JSON: ";

/// A line to print, without its line feed.
#[derive(Debug)]
pub enum OutputLine {
    Stdout(String),
    Stderr(String),
}

/// The value of an [`OutputLine`].
pub enum OutputLineView {
    Stdout(Seq<char>),
    Stderr(Seq<char>),
}

impl View for OutputLine {
    type V = OutputLineView;

    open spec fn view(&self) -> OutputLineView {
        match *self {
            OutputLine::Stdout(text) => OutputLineView::Stdout(text@),
            OutputLine::Stderr(text) => OutputLineView::Stderr(text@),
        }
    }
}

impl DeepView for OutputLine {
    type V = OutputLineView;

    open spec fn deep_view(&self) -> OutputLineView {
        self@
    }
}

/// The line that is printed for an item.
pub open spec fn printed(item: ItemView) -> OutputLineView {
    match item.json {
        Ok(text) => OutputLineView::Stdout(text),
        Err(reason) => OutputLineView::Stderr(UNPRINTABLE_TEXT@ + reason),
    }
}

/// The lines that are printed for items.
pub open spec fn all_printed(items: Seq<ItemView>) -> Seq<OutputLineView> {
    items.map_values(|item: ItemView| printed(item))
}

/// Makes the line to print for an item.
pub fn print_line(item: Item) -> (line: OutputLine)
    ensures
        line@ == printed(item@),
{
    match item.json {
        Ok(text) => OutputLine::Stdout(text),
        Err(reason) => OutputLine::Stderr(UNPRINTABLE_TEXT.to_owned().concat(reason.as_str())),
    }
}

/// Takes all items out of a channel, and makes the lines to print for them, in order.
pub fn print_receiver(receiver: &mut Channel) -> (lines: Vec<OutputLine>)
    ensures
        final(receiver)@ == Seq::<ItemView>::empty(),
        lines.deep_view() == all_printed(old(receiver)@),
{
    let ghost all = receiver@;
    let mut lines: Vec<OutputLine> = Vec::new();
    assert(lines.deep_view() + all_printed(receiver@) =~= all_printed(all));
    loop
        invariant
            lines.deep_view() + all_printed(receiver@) == all_printed(all),
        ensures
            receiver@.len() == 0,
        decreases receiver@.len(),
    {
        let ghost waiting = receiver@;
        let item = match receiver.recv() {
            Some(item) => item,
            None => break,
        };
        let ghost before = lines.deep_view();
        lines.push(print_line(item));
        assert(lines.deep_view() =~= before.push(printed(waiting[0])));
        assert(lines.deep_view() + all_printed(receiver@) =~= before + all_printed(waiting));
    }
    assert(receiver@ =~= Seq::<ItemView>::empty());
    assert(lines.deep_view() =~= all_printed(all));
    lines
}

/// The value of a line shows where it goes and its text as they are.
pub proof fn law_line_values_are_complete(line: OutputLine)
    ensures
        line matches OutputLine::Stdout(text) ==> line@ == OutputLineView::Stdout(text@),
        line matches OutputLine::Stderr(text) ==> line@ == OutputLineView::Stderr(text@),
{
}

/// An item that has a JSON form is printed on the standard output as exactly that text. Only an item
/// without one is reported on the standard error, with the reason. Each item takes one line, and the
/// lines come in the order of the items.
pub proof fn law_items_print_as_their_json(items: Seq<ItemView>, i: int)
    requires
        0 <= i < items.len(),
    ensures
        all_printed(items).len() == items.len(),
        items[i].json matches Ok(text) ==> all_printed(items)[i] == OutputLineView::Stdout(text)
            && printed(items[i]) == OutputLineView::Stdout(text),
        items[i].json matches Err(reason) ==> all_printed(items)[i] == OutputLineView::Stderr(
            "Failed to serialize span to JSON: "@ + reason,
        ) && printed(items[i]) == OutputLineView::Stderr(
            "Failed to serialize span to JSON: "@ + reason,
        ),
{
}

/// Nothing is printed for nothing.
pub proof fn law_no_items_print_nothing()
    ensures
        all_printed(Seq::empty()) == Seq::<OutputLineView>::empty(),
{
}

} // verus!
