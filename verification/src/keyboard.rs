//! The tag keyboard: a selection of tags that lives only in the buttons.
//!
//! Every button carries the whole selection as its callback data, together
//! with the id of the button itself. When a button comes back, the keyboard
//! is rebuilt from that data alone: the pressed tag changes sides, and every
//! new button carries the new selection. Nothing is remembered between two
//! presses.

use crate::photo_service::PhotoUID;
use crate::selection::{
    copy_values,
    is_selected,
    lemma_toggle_flips_one,
    lemma_toggle_keeps_valid,
    lemma_toggle_twice,
    toggle,
    toggled,
    valid_selection,
};
use crate::text::texts;
use vstd::prelude::*;
use vstd::string::*;

verus! {

/// The id of the button that commits the selection.
pub const SAVE_BUTTON_ID: i32 = -2;

/// The id carried by the data of a keyboard on which nothing was pressed yet.
pub const NO_BUTTON_ID: i32 = -1;

/// What a button hands back when it is pressed.
#[derive(Debug, PartialEq, Eq)]
pub struct TagKeyboardData {
    /// The pressed button: an index into the tag list, `SAVE_BUTTON_ID` or
    /// `NO_BUTTON_ID`.
    pub id: i32,
    /// The indices of the tags selected before the press, in the order in
    /// which they were selected.
    pub values: Vec<i32>,
    /// The photo that the tags are for.
    pub photo_uid: String,
}

/// The mathematical content of a `TagKeyboardData`.
pub struct Selection {
    pub id: i32,
    pub values: Seq<i32>,
    pub photo_uid: Seq<char>,
}

impl View for TagKeyboardData {
    type V = Selection;

    open spec fn view(&self) -> Selection {
        Selection { id: self.id, values: self.values@, photo_uid: self.photo_uid@ }
    }
}

impl TagKeyboardData {
    /// The data of a keyboard for a photo that was just stored: no tag is
    /// selected and no button was pressed.
    pub fn new(photo_uid: &PhotoUID) -> (data: Self)
        ensures
            data@ == (Selection {
                id: NO_BUTTON_ID,
                values: Seq::empty(),
                photo_uid: photo_uid.0@,
            }),
    {
        TagKeyboardData { id: NO_BUTTON_ID, values: Vec::new(), photo_uid: photo_uid.0.clone() }
    }
}

/// One button of the keyboard.
#[derive(Debug, PartialEq, Eq)]
pub struct Button {
    /// What the button shows.
    pub text: String,
    /// What the button hands back when it is pressed.
    pub callback_data: TagKeyboardData,
}

/// The mathematical content of a `Button`.
pub struct ButtonView {
    pub text: Seq<char>,
    pub callback_data: Selection,
}

impl View for Button {
    type V = ButtonView;

    open spec fn view(&self) -> ButtonView {
        ButtonView { text: self.text@, callback_data: self.callback_data@ }
    }
}

/// A keyboard: rows of buttons, top to bottom.
#[derive(Debug, PartialEq, Eq)]
pub struct TagsKeyboard {
    pub rows: Vec<Vec<Button>>,
}

impl View for TagsKeyboard {
    type V = Seq<Seq<ButtonView>>;

    open spec fn view(&self) -> Seq<Seq<ButtonView>> {
        Seq::new(self.rows@.len(), |r: int| row_view(self.rows@[r]@))
    }
}

/// The buttons of one row, as mathematical values.
pub open spec fn row_view(row: Seq<Button>) -> Seq<ButtonView> {
    Seq::new(row.len(), |c: int| row[c]@)
}

/// The mark that follows the name of a selected tag.
pub open spec fn check_mark() -> Seq<char> {
    seq!['\u{2713}']
}

/// The number of rows that `n` tags fill, three to a row.
pub open spec fn tag_rows(n: nat) -> nat {
    (n + 2) / 3
}

/// The number of buttons in row `r` of `n` tags.
pub open spec fn row_len(n: nat, r: int) -> nat {
    if n - 3 * r >= 3 {
        3
    } else {
        (n - 3 * r) as nat
    }
}

/// The button of tag `index` on a keyboard that shows the selection `values`.
pub open spec fn tag_button(
    values: Seq<i32>,
    photo_uid: Seq<char>,
    tags: Seq<Seq<char>>,
    index: int,
) -> ButtonView {
    ButtonView {
        text: if values.contains(index as i32) {
            tags[index] + check_mark()
        } else {
            tags[index]
        },
        callback_data: Selection { id: index as i32, values, photo_uid },
    }
}

/// The button that commits the selection `values`.
pub open spec fn save_button(
    values: Seq<i32>,
    photo_uid: Seq<char>,
    save_text: Seq<char>,
) -> ButtonView {
    ButtonView {
        text: save_text,
        callback_data: Selection { id: SAVE_BUTTON_ID, values, photo_uid },
    }
}

/// The keyboard that answers `data`: the press that `data` reports is applied
/// to its selection, the tags follow in their own order, three to a row, each
/// selected one marked, and a last row holds the save button alone. Every
/// button carries the new selection.
pub open spec fn tags_keyboard(
    data: Selection,
    tags: Seq<Seq<char>>,
    save_text: Seq<char>,
) -> Seq<Seq<ButtonView>> {
    let values = toggled(data.values, data.id);
    Seq::new(
        tag_rows(tags.len()) + 1,
        |r: int|
            if r < tag_rows(tags.len()) {
                Seq::new(
                    row_len(tags.len(), r),
                    |c: int| tag_button(values, data.photo_uid, tags, 3 * r + c),
                )
            } else {
                seq![save_button(values, data.photo_uid, save_text)]
            },
    )
}

/// The row of `tags` that starts at tag `start` and holds `len` buttons, on a
/// keyboard that shows the selection `values`.
fn make_row(
    values: &Vec<i32>,
    photo_uid: &String,
    tags: &[String],
    start: usize,
    len: usize,
) -> (row: Vec<Button>)
    requires
        tags@.len() <= i32::MAX,
        start + len <= tags@.len(),
    ensures
        row_view(row@) == Seq::new(
            len as nat,
            |c: int| tag_button(values@, photo_uid@, texts(tags@), start + c),
        ),
{
    let mut row: Vec<Button> = Vec::new();
    let mut c: usize = 0;
    while c < len
        invariant
            c <= len,
            tags@.len() <= i32::MAX,
            start + len <= tags@.len(),
            row@.len() == c,
            forall|k: int|
                0 <= k < c ==> (#[trigger] row@[k])@ == tag_button(
                    values@,
                    photo_uid@,
                    texts(tags@),
                    start + k,
                ),
        decreases len - c,
    {
        let index: usize = start + c;
        let id: i32 = index as i32;
        let mut text = tags[index].clone();
        if is_selected(values, id) {
            proof {
                reveal_strlit("\u{2713}");
            }
            text.append("\u{2713}");
            assert(text@ == tags@[index as int]@ + check_mark());
        }
        let callback_data = TagKeyboardData {
            id,
            values: copy_values(values),
            photo_uid: photo_uid.clone(),
        };
        row.push(Button { text, callback_data });
        c += 1;
    }
    row
}

/// Builds the keyboard that answers `data`, for the configured `tags` and
/// with `save_text` on the save button.
///
/// The tag list must be short enough for its indices to be button ids.
pub fn make_tags_keyboard(data: &TagKeyboardData, tags: &[String], save_text: &str) -> (keyboard:
    TagsKeyboard)
    requires
        tags@.len() <= i32::MAX,
    ensures
        keyboard@ == tags_keyboard(data@, texts(tags@), save_text@),
{
    let new_values = toggle(&data.values, data.id);
    let n: usize = tags.len();
    let mut rows: Vec<Vec<Button>> = Vec::new();
    let mut start: usize = 0;
    while start < n
        invariant
            n == tags@.len(),
            n <= i32::MAX,
            start <= n,
            start == 3 * rows@.len() || start == n,
            start <= 3 * rows@.len(),
            rows@.len() > 0 ==> 3 * (rows@.len() - 1) < n,
            new_values@ == toggled(data@.values, data@.id),
            forall|r: int|
                0 <= r < rows@.len() ==> row_view((#[trigger] rows@[r])@) == Seq::new(
                    row_len(n as nat, r),
                    |c: int| tag_button(new_values@, data@.photo_uid, texts(tags@), 3 * r + c),
                ),
        decreases n - start,
    {
        let len: usize = if n - start >= 3 {
            3
        } else {
            n - start
        };
        rows.push(make_row(&new_values, &data.photo_uid, tags, start, len));
        start = start + len;
    }
    let save = Button {
        text: save_text.to_string(),
        callback_data: TagKeyboardData {
            id: SAVE_BUTTON_ID,
            values: new_values,
            photo_uid: data.photo_uid.clone(),
        },
    };
    let mut last: Vec<Button> = Vec::new();
    last.push(save);
    assert(row_view(last@) =~= seq![
        save_button(toggled(data@.values, data@.id), data@.photo_uid, save_text@),
    ]);
    rows.push(last);
    TagsKeyboard { rows }
}

/// The button of tag `index` on the keyboard `keyboard`.
pub open spec fn button_of(keyboard: Seq<Seq<ButtonView>>, index: int) -> ButtonView {
    keyboard[index / 3][index % 3]
}

/// Every tag of the list has its button, in the list's order, and that button
/// carries the tag's index and the selection that the keyboard shows.
pub proof fn lemma_keyboard_buttons(
    data: Selection,
    tags: Seq<Seq<char>>,
    save_text: Seq<char>,
    index: int,
)
    requires
        0 <= index < tags.len(),
    ensures
        tags_keyboard(data, tags, save_text).len() == tag_rows(tags.len()) + 1,
        index / 3 < tag_rows(tags.len()),
        index % 3 < tags_keyboard(data, tags, save_text)[index / 3].len(),
        button_of(tags_keyboard(data, tags, save_text), index) == tag_button(
            toggled(data.values, data.id),
            data.photo_uid,
            tags,
            index,
        ),
        tags_keyboard(data, tags, save_text).last() == seq![
            save_button(toggled(data.values, data.id), data.photo_uid, save_text),
        ],
{
}

/// Data is valid for a list of `n` tags when its selection is and its id is
/// one that a keyboard for the list gives out: a tag's index, the id of the
/// save button, or the id that stands for no button.
pub open spec fn valid_data(data: Selection, n: nat) -> bool {
    &&& valid_selection(data.values, n)
    &&& 0 <= data.id < n || data.id == SAVE_BUTTON_ID || data.id == NO_BUTTON_ID
}

/// The data of the first keyboard under a photo is valid for every tag list.
pub proof fn lemma_first_data_is_valid(photo_uid: Seq<char>, n: nat)
    ensures
        valid_data(Selection { id: NO_BUTTON_ID, values: Seq::empty(), photo_uid }, n),
{
}

/// Validity is kept from keyboard to keyboard: the keyboard that answers
/// valid data hands out valid data on every button, on each tag's and on the
/// save button. So no selection that the keyboards pass on ever holds an
/// index twice or an index that names no tag.
pub proof fn lemma_keyboard_keeps_valid(
    data: Selection,
    tags: Seq<Seq<char>>,
    save_text: Seq<char>,
    index: int,
)
    requires
        valid_data(data, tags.len()),
        tags.len() <= i32::MAX,
        0 <= index < tags.len(),
    ensures
        valid_data(
            button_of(tags_keyboard(data, tags, save_text), index).callback_data,
            tags.len(),
        ),
        valid_data(tags_keyboard(data, tags, save_text).last()[0].callback_data, tags.len()),
{
    lemma_toggle_keeps_valid(data.values, data.id, tags.len());
    lemma_keyboard_buttons(data, tags, save_text, index);
}

/// A press on a tag's button of a keyboard, answered by the next keyboard,
/// toggles that tag and nothing else. Let a keyboard answer data whose
/// selection has no repetitions. The data of its button for tag `index` produces a keyboard on
/// which the mark of `index` has changed sides, every other tag is marked
/// exactly if it was marked before, and every button carries the selection
/// with `index` toggled, for the same photo.
pub proof fn lemma_press_toggles_one(
    data: Selection,
    tags: Seq<Seq<char>>,
    save_text: Seq<char>,
    index: int,
    other: int,
)
    requires
        data.values.no_duplicates(),
        tags.len() <= i32::MAX,
        0 <= index < tags.len(),
        0 <= other < tags.len(),
    ensures
        ({
            let shown = toggled(data.values, data.id);
            let pressed = button_of(tags_keyboard(data, tags, save_text), index).callback_data;
            let next = tags_keyboard(pressed, tags, save_text);
            let was_marked = shown.contains(other as i32);
            let is_marked = toggled(shown, index as i32).contains(other as i32);
            &&& pressed == Selection { id: index as i32, values: shown, photo_uid: data.photo_uid }
            &&& button_of(next, other) == tag_button(
                toggled(shown, index as i32),
                data.photo_uid,
                tags,
                other,
            )
            &&& is_marked == if other == index {
                !was_marked
            } else {
                was_marked
            }
        }),
{
    let shown = toggled(data.values, data.id);
    lemma_toggle_flips_one(data.values, data.id);
    lemma_keyboard_buttons(data, tags, save_text, index);
    let pressed = button_of(tags_keyboard(data, tags, save_text), index).callback_data;
    lemma_keyboard_buttons(pressed, tags, save_text, other);
    lemma_toggle_flips_one(shown, index as i32);
}

/// Two presses on the same tag's button, each answered by the next keyboard,
/// lead back to a keyboard with the marks of the first: every tag is marked
/// on the third keyboard exactly if it was on the first.
pub proof fn lemma_press_twice_restores(
    data: Selection,
    tags: Seq<Seq<char>>,
    save_text: Seq<char>,
    index: int,
    other: int,
)
    requires
        data.values.no_duplicates(),
        tags.len() <= i32::MAX,
        0 <= index < tags.len(),
        0 <= other < tags.len(),
    ensures
        ({
            let first = tags_keyboard(data, tags, save_text);
            let second = tags_keyboard(button_of(first, index).callback_data, tags, save_text);
            let third = tags_keyboard(button_of(second, index).callback_data, tags, save_text);
            &&& button_of(third, other).text == button_of(first, other).text
            &&& button_of(third, other).callback_data.values.to_set() == button_of(
                first,
                other,
            ).callback_data.values.to_set()
        }),
{
    let shown = toggled(data.values, data.id);
    lemma_toggle_flips_one(data.values, data.id);
    let first = tags_keyboard(data, tags, save_text);
    lemma_keyboard_buttons(data, tags, save_text, index);
    lemma_keyboard_buttons(data, tags, save_text, other);
    let pressed = button_of(first, index).callback_data;
    let second = tags_keyboard(pressed, tags, save_text);
    lemma_keyboard_buttons(pressed, tags, save_text, index);
    let again = button_of(second, index).callback_data;
    lemma_keyboard_buttons(again, tags, save_text, other);
    lemma_toggle_twice(shown, index as i32);
    let back = toggled(toggled(shown, index as i32), index as i32);
    assert(back.contains(other as i32) == back.to_set().contains(other as i32));
    assert(shown.contains(other as i32) == shown.to_set().contains(other as i32));
}

} // verus!
