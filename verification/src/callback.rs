//! What a pressed button leads to: the next keyboard, or the tags to save.

use crate::keyboard::{
    make_tags_keyboard,
    tags_keyboard,
    Selection,
    TagKeyboardData,
    TagsKeyboard,
    SAVE_BUTTON_ID,
};
use crate::photo_service::PhotoUID;
use crate::selection::valid_selection;
use crate::text::texts;
use vstd::prelude::*;
use vstd::string::*;

verus! {

/// A selection holds an index that names no tag of the list.
#[derive(Debug, PartialEq, Eq)]
pub struct InvalidSelectionIndex {
    /// The offending index.
    pub index: i32,
}

/// `at` is the first place in `values` whose index names none of `n` tags.
pub open spec fn first_invalid_at(values: Seq<i32>, n: nat, at: int) -> bool {
    &&& 0 <= at < values.len()
    &&& !(0 <= values[at] < n)
    &&& forall|j: int| 0 <= j < at ==> 0 <= #[trigger] values[j] < n
}

/// Every index in `values` names one of `n` tags.
pub open spec fn all_name_tags(values: Seq<i32>, n: nat) -> bool {
    forall|i: int| 0 <= i < values.len() ==> 0 <= #[trigger] values[i] < n
}

/// The names of the selected tags, in the order of the selection.
pub open spec fn tag_names(values: Seq<i32>, tags: Seq<Seq<char>>) -> Seq<Seq<char>> {
    Seq::new(values.len(), |i: int| tags[values[i] as int])
}

/// Resolves a selection to the names of its tags, in the selection's order.
///
/// An index that names no tag of the list is an error, never passed over: the
/// first such index is reported.
pub fn selected_tags(values: &Vec<i32>, tags: &[String]) -> (result: Result<
    Vec<String>,
    InvalidSelectionIndex,
>)
    ensures
        match result {
            Ok(names) => {
                &&& all_name_tags(values@, tags@.len())
                &&& texts(names@) == tag_names(values@, texts(tags@))
            },
            Err(error) => exists|at: int|
                first_invalid_at(values@, tags@.len(), at) && values@[at] == error.index,
        },
{
    let mut names: Vec<String> = Vec::new();
    let mut i: usize = 0;
    while i < values.len()
        invariant
            i <= values.len(),
            names@.len() == i,
            forall|j: int| 0 <= j < i ==> 0 <= #[trigger] values@[j] < tags@.len(),
            forall|j: int| 0 <= j < i ==> (#[trigger] names@[j])@ == tags@[values@[j] as int]@,
        decreases values.len() - i,
    {
        let index: i32 = values[i];
        if index < 0 || index as usize >= tags.len() {
            return Err(InvalidSelectionIndex { index });
        }
        names.push(tags[index as usize].clone());
        i += 1;
    }
    Ok(names)
}

/// The names in `names`, with `separator` between each two.
pub open spec fn joined(names: Seq<Seq<char>>, separator: Seq<char>) -> Seq<char>
    decreases names.len(),
{
    if names.len() == 0 {
        Seq::empty()
    } else if names.len() == 1 {
        names[0]
    } else {
        joined(names.drop_last(), separator) + separator + names.last()
    }
}

/// The tag names in one line, with a comma between each two.
pub fn join_tags(names: &Vec<String>) -> (line: String)
    ensures
        line@ == joined(texts(names@), seq![',']),
{
    let mut line = String::new();
    let mut i: usize = 0;
    while i < names.len()
        invariant
            i <= names.len(),
            line@ == joined(texts(names@).subrange(0, i as int), seq![',']),
        decreases names.len() - i,
    {
        let ghost before = texts(names@).subrange(0, i as int);
        let ghost now = texts(names@).subrange(0, i + 1);
        assert(now.drop_last() =~= before);
        if i > 0 {
            proof {
                reveal_strlit(",");
            }
            line.append(",");
        }
        line.append(names[i].as_str());
        i += 1;
    }
    assert(texts(names@).subrange(0, names@.len() as int) =~= texts(names@));
    line
}

/// What is to be done about a pressed button.
#[derive(Debug, PartialEq, Eq)]
pub enum CallbackAction {
    /// A tag was pressed: this keyboard takes the place of the pressed one.
    ShowKeyboard(TagsKeyboard),
    /// The save button was pressed: each of these tags is added to the photo
    /// as a label, one call for each, and the interaction ends.
    SaveTags { photo_uid: PhotoUID, tags: Vec<String> },
}

/// What a press that reports `data` leads to.
pub open spec fn is_answer_to(
    result: Result<CallbackAction, InvalidSelectionIndex>,
    data: Selection,
    tags: Seq<Seq<char>>,
    save_text: Seq<char>,
) -> bool {
    if data.id == SAVE_BUTTON_ID {
        match result {
            Ok(CallbackAction::SaveTags { photo_uid, tags: names }) => {
                &&& all_name_tags(data.values, tags.len())
                &&& photo_uid.0@ == data.photo_uid
                &&& texts(names@) == tag_names(data.values, tags)
            },
            Ok(CallbackAction::ShowKeyboard(_)) => false,
            Err(error) => exists|at: int|
                first_invalid_at(data.values, tags.len(), at) && data.values[at] == error.index,
        }
    } else {
        match result {
            Ok(CallbackAction::ShowKeyboard(keyboard)) => keyboard@ == tags_keyboard(
                data,
                tags,
                save_text,
            ),
            _ => false,
        }
    }
}

/// A valid selection can always be saved: each of its indices names a tag,
/// so the press of the save button is answered with the tags and never with
/// an error.
pub proof fn lemma_valid_selection_is_saved(
    result: Result<CallbackAction, InvalidSelectionIndex>,
    data: Selection,
    tags: Seq<Seq<char>>,
    save_text: Seq<char>,
)
    requires
        valid_selection(data.values, tags.len()),
        data.id == SAVE_BUTTON_ID,
        is_answer_to(result, data, tags, save_text),
    ensures
        result is Ok,
        result->Ok_0 is SaveTags,
        result->Ok_0->SaveTags_tags@.len() == data.values.len(),
{
    assert(texts(result->Ok_0->SaveTags_tags@).len() == data.values.len());
}

/// Decides what a pressed button leads to, from the data that it handed back.
///
/// The save button ends the interaction: the selection that it carries is
/// resolved to tag names, and an index that names no tag is an error. Any
/// other button is answered by the next keyboard.
pub fn handle_callback_message(
    data: &TagKeyboardData,
    tags: &[String],
    save_text: &str,
) -> (result: Result<CallbackAction, InvalidSelectionIndex>)
    requires
        tags@.len() <= i32::MAX,
    ensures
        is_answer_to(result, data@, texts(tags@), save_text@),
{
    if data.id == SAVE_BUTTON_ID {
        match selected_tags(&data.values, tags) {
            Ok(names) => Ok(
                CallbackAction::SaveTags { photo_uid: PhotoUID(data.photo_uid.clone()), tags: names },
            ),
            Err(error) => {
                proof {
                    let at = choose|at: int|
                        first_invalid_at(data.values@, tags@.len(), at) && data.values@[at]
                            == error.index;
                    assert(first_invalid_at(data@.values, texts(tags@).len(), at));
                }
                Err(error)
            },
        }
    } else {
        Ok(CallbackAction::ShowKeyboard(make_tags_keyboard(data, tags, save_text)))
    }
}

} // verus!
