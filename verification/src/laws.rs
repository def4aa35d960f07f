//! What holds of the controller in every state.

use crate::command::{ButtonType, CommandView, OutcomeView, RegistrationEvent};
use crate::keys::{is_character_key, read_keystroke, read_shortcut, Keystroke, Shortcut};
use crate::model::RegistrationView;
use crate::navigation::{ActiveTab, FocusField};
use crate::person::{holds_id, DraftField, DraftView, PersonView};
use crate::text_input::edit_text;
use vstd::prelude::*;

verus! {

/// The state after a run of key events, each routed to the focused field.
pub open spec fn type_keys(state: RegistrationView, keys: Seq<Seq<char>>) -> RegistrationView
    decreases keys.len(),
{
    if keys.len() == 0 {
        state
    } else {
        type_keys(state.type_key(keys[0]), keys.drop_first())
    }
}

/// A run of `n` backspace events.
pub open spec fn backspaces(n: nat) -> Seq<Seq<char>> {
    Seq::new(n, |i: int| "backspace"@)
}

/// A key event of one printable character is read as that character, not
/// as one of the named keys.
pub proof fn character_key_is_read_as_character(key: Seq<char>)
    requires
        is_character_key(key),
    ensures
        read_keystroke(key) == Keystroke::Character(key[0]),
{
    reveal_strlit("backspace");
    reveal_strlit("space");
    reveal_strlit("enter");
}

/// Backspace on an empty buffer leaves it empty, and in a state whose
/// focused field is empty a backspace event changes nothing.
pub proof fn backspace_on_empty_is_noop(state: RegistrationView)
    requires
        state.buffer(state.focused_field).len() == 0,
    ensures
        edit_text(Seq::empty(), Keystroke::Backspace) == Seq::<char>::empty(),
        state.type_key("backspace"@) == state,
{
    reveal_strlit("backspace");
    reveal_strlit("space");
    reveal_strlit("enter");
    let field = state.focused_field;
    assert(read_keystroke("backspace"@) == Keystroke::Backspace);
    assert(state.with_buffer(field, state.buffer(field)) == state);
}

/// Typing one printable character and then a backspace changes nothing.
pub proof fn backspace_undoes_character(state: RegistrationView, key: Seq<char>)
    requires
        is_character_key(key),
    ensures
        state.type_key(key).type_key("backspace"@) == state,
{
    character_key_is_read_as_character(key);
    reveal_strlit("backspace");
    reveal_strlit("space");
    reveal_strlit("enter");
    assert(read_keystroke("backspace"@) == Keystroke::Backspace);
    let field = state.focused_field;
    let text = state.buffer(field);
    assert(text.push(key[0]).drop_last() =~= text);
    let typed = state.type_key(key);
    if field != FocusField::Unfocused {
        assert(typed.focused_field == field);
        assert(typed.buffer(field) == text.push(key[0]));
        assert(state.with_buffer(field, text) == state);
    }
}

/// Routing a run and then another is routing the two as one run.
pub proof fn type_keys_in_two_runs(
    state: RegistrationView,
    first: Seq<Seq<char>>,
    second: Seq<Seq<char>>,
)
    ensures
        type_keys(state, first + second) == type_keys(type_keys(state, first), second),
    decreases first.len(),
{
    if first.len() == 0 {
        assert(first + second =~= second);
    } else {
        assert((first + second)[0] == first[0]);
        assert((first + second).drop_first() =~= first.drop_first() + second);
        type_keys_in_two_runs(state.type_key(first[0]), first.drop_first(), second);
    }
}

/// A run of single printable characters followed by as many backspaces
/// brings every buffer, and the whole state, back to what it was.
pub proof fn backspaces_undo_typing(state: RegistrationView, keys: Seq<Seq<char>>)
    requires
        forall|i: int| 0 <= i < keys.len() ==> is_character_key(#[trigger] keys[i]),
    ensures
        type_keys(type_keys(state, keys), backspaces(keys.len())) == state,
    decreases keys.len(),
{
    if keys.len() == 0 {
        assert(backspaces(0).len() == 0);
    } else {
        let n = keys.len();
        let front = keys.drop_last();
        let last = keys.last();
        let before = type_keys(state, front);
        assert(keys =~= front + seq![last]);
        type_keys_in_two_runs(state, front, seq![last]);
        assert(seq![last].drop_first() =~= Seq::<Seq<char>>::empty());
        assert(type_keys(before, seq![last]) == before.type_key(last)) by {
            assert(seq![last][0] == last);
            assert(type_keys(before.type_key(last), Seq::<Seq<char>>::empty()) == before.type_key(
                last,
            ));
        }
        assert(backspaces(n)[0] == "backspace"@);
        assert(backspaces(n).drop_first() =~= backspaces((n - 1) as nat));
        backspace_undoes_character(before, last);
        backspaces_undo_typing(state, front);
    }
}

/// A switch to another tab that is not the manage tab clears the focus,
/// wherever it was.
pub proof fn tab_switch_clears_focus(state: RegistrationView, tab: ActiveTab)
    requires
        tab != state.active_tab,
        tab != ActiveTab::Manage,
    ensures
        state.set_tab(tab).active_tab == tab,
        state.set_tab(tab).focused_field == FocusField::Unfocused,
{
}

/// A switch to the manage tab from another tab gives the focus to the
/// person-name field, wherever it was. On the manage tab itself the switch
/// is no switch and the focus stays.
pub proof fn manage_tab_focuses_person_name(state: RegistrationView)
    ensures
        state.active_tab != ActiveTab::Manage ==> state.set_tab(ActiveTab::Manage).focused_field
            == FocusField::PersonName,
        state.active_tab == ActiveTab::Manage ==> state.set_tab(ActiveTab::Manage) == state,
        state.set_tab(ActiveTab::Manage).active_tab == ActiveTab::Manage,
{
}

/// After a listed record is selected the draft holds exactly its three
/// fields and its id is the selected one; after the draft is cleared it is
/// blank and nothing is selected.
pub proof fn draft_follows_selection(state: RegistrationView, record: PersonView)
    ensures
        holds_id(state.persons, record.id) ==> {
            let chosen = state.select_person(record);
            &&& chosen.draft.full_name == record.full_name
            &&& chosen.draft.person_type == record.person_type
            &&& chosen.draft.access_level == record.access_level
            &&& chosen.selected_person_id == Some(record.id)
        },
        !holds_id(state.persons, record.id) ==> state.select_person(record) == state,
        state.clear_draft().draft == DraftView::blank(),
        state.clear_draft().selected_person_id.is_none(),
{
}

/// Storing the draft asks for no list. Its success turns the draft blank
/// and then asks for the list exactly once; the outcome of that query asks
/// for nothing more. Its failure asks for no list and leaves the state, the
/// draft with it, as it was. The same holds of deleting a record.
pub proof fn refresh_follows_write(
    state: RegistrationView,
    succeeded: bool,
    fetched: Option<Seq<PersonView>>,
)
    ensures
        state.save().0 == state,
        state.save().1.list_queries() == 0,
        state.delete().0 == state,
        state.delete().1.list_queries() == 0,
        state.complete(OutcomeView::Written(succeeded)) == state.write_finished(succeeded),
        state.write_finished(true) == state.clear_draft().list(),
        state.write_finished(false) == (state, CommandView::Idle),
        state.connection.handle() is Some ==> {
            let (refreshing, command) = state.write_finished(true);
            &&& command == CommandView::ListPersons(state.connection.handle()->0)
            &&& command.list_queries() == 1
            &&& refreshing == (RegistrationView { is_loading: true, ..state.clear_draft() })
        },
        state.write_finished(false).1.list_queries() == 0,
        state.complete(OutcomeView::Listed(fetched)).1 == CommandView::Idle,
{
}

/// Without an open connection the three operations on persons do nothing:
/// the state stays and nothing is asked.
pub proof fn no_connection_no_work(state: RegistrationView)
    requires
        state.connection.handle().is_none(),
    ensures
        state.list() == (state, CommandView::Idle),
        state.save() == (state, CommandView::Idle),
        state.delete() == (state, CommandView::Idle),
{
}

/// A key that is read as a shortcut, and a press of one of the three tab
/// buttons, changes no field of the state. A shortcut announces what is to
/// be opened and asks for nothing else.
pub proof fn shortcuts_leave_the_state(state: RegistrationView, key: Seq<char>)
    ensures
        state.press(ButtonType::Settings) == (
            state,
            CommandView::Emit(RegistrationEvent::OpenSettings),
        ),
        state.press(ButtonType::Persons) == (
            state,
            CommandView::Emit(RegistrationEvent::OpenRegister),
        ),
        state.press(ButtonType::Employees) == (state, CommandView::Idle),
        state.key_input(key).0 == state,
        state.key_input(key).1 == match read_shortcut(key) {
            Some(Shortcut::Register) => CommandView::Emit(RegistrationEvent::OpenRegister),
            Some(Shortcut::Settings) => CommandView::Emit(RegistrationEvent::OpenSettings),
            None => CommandView::Idle,
        },
        state.focused_field == FocusField::Unfocused ==> state.key_down(key) == state.key_input(
            key,
        ),
{
}

/// The state at start is well formed.
pub proof fn initial_state_is_well_formed()
    ensures
        RegistrationView::initial().wf(),
{
}

/// No operation on the state breaks its well-formedness.
pub proof fn operations_keep_well_formedness(
    state: RegistrationView,
    tab: ActiveTab,
    field: FocusField,
    key: Seq<char>,
    db_name: Seq<char>,
    password: Seq<char>,
    outcome: OutcomeView,
    record: PersonView,
    draft_field: DraftField,
    value: Seq<char>,
    button: ButtonType,
)
    requires
        state.wf(),
    ensures
        state.set_tab(tab).wf(),
        state.focus(field).wf(),
        state.type_key(key).wf(),
        state.key_input(key).0.wf(),
        state.key_down(key).0.wf(),
        state.press(button).0.wf(),
        state.connect(db_name, password).0.wf(),
        state.list().0.wf(),
        state.save().0.wf(),
        state.delete().0.wf(),
        state.complete(outcome).0.wf(),
        state.select_person(record).wf(),
        state.clear_draft().wf(),
        state.update_field(draft_field, value).wf(),
{
}

} // verus!
