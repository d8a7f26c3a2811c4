//! The state of the interactive form that collects the recipient, the site
//! and the stop time: text inputs with a cursor, and pick lists.

use vstd::prelude::*;

verus! {

/// Which part of the form takes the keys.
#[derive(Clone, Copy, Debug, PartialEq, Eq, Structural)]
pub enum InputMode {
    Normal,
    InsertingName,
    InsertingEmail,
    InsertingWebsite,
    InsertingHour,
    InsertingMinute,
}

/// A list with at most one selected item.
pub struct StatefulList<T> {
    /// The index of the selected item, if any.
    pub selected: Option<usize>,
    pub items: Vec<T>,
}

impl<T> StatefulList<T> {
    /// The list of `items`, with nothing selected.
    pub fn with_items(items: Vec<T>) -> (r: StatefulList<T>)
        ensures
            r.selected is None,
            r.items@ == items@,
    {
        StatefulList { selected: None, items }
    }

    /// The index of the selected item, if any.
    pub fn selected(&self) -> (r: Option<usize>)
        ensures
            r == self.selected,
    {
        self.selected
    }

    /// Selects the item after the selected one, wrapping from the last item
    /// to the first; selects the first where nothing is selected.
    pub fn next(&mut self)
        requires
            old(self).selected is Some ==> old(self).items.len() > 0,
        ensures
            final(self).items@ == old(self).items@,
            final(self).selected == Some(match old(self).selected {
                Some(i) => if i >= old(self).items.len() - 1 { 0 } else { (i + 1) as usize },
                None => 0,
            }),
    {
        let i = match self.selected {
            Some(i) => if i >= self.items.len() - 1 {
                0
            } else {
                i + 1
            },
            None => 0,
        };
        self.selected = Some(i);
    }

    /// Selects the item before the selected one, wrapping from the first item
    /// to the last; selects the first where nothing is selected.
    pub fn previous(&mut self)
        requires
            old(self).selected == Some(0usize) ==> old(self).items.len() > 0,
        ensures
            final(self).items@ == old(self).items@,
            final(self).selected == Some(match old(self).selected {
                Some(i) => if i == 0 { (old(self).items.len() - 1) as usize } else { (i - 1) as usize },
                None => 0,
            }),
    {
        let i = match self.selected {
            Some(i) => if i == 0 {
                self.items.len() - 1
            } else {
                i - 1
            },
            None => 0,
        };
        self.selected = Some(i);
    }
}

/// Relies on `String::push`: appends one character.
#[verifier::external_body]
fn push_char(s: &mut String, c: char)
    ensures
        final(s)@ == old(s)@.push(c),
{
    s.push(c);
}

/// `s` with `c` inserted before the character at `at`.
pub open spec fn inserted(s: Seq<char>, at: int, c: char) -> Seq<char> {
    s.subrange(0, at) + seq![c] + s.subrange(at, s.len() as int)
}

/// `s` without the character at `at`.
pub open spec fn removed(s: Seq<char>, at: int) -> Seq<char> {
    s.subrange(0, at) + s.subrange(at + 1, s.len() as int)
}

/// `s` with `c` inserted before the character at `at`.
fn insert_char(s: &String, at: usize, c: char) -> (r: String)
    requires
        at <= s@.len(),
    ensures
        r@ == inserted(s@, at as int, c),
{
    let n = s.as_str().unicode_len();
    let mut out = String::new();
    let mut i: usize = 0;
    while i < n
        invariant
            0 <= i <= n,
            n == s@.len(),
            at <= n,
            out@ == (if i <= at { s@.subrange(0, i as int) } else { inserted(s@, at as int, c).subrange(0, i + 1) }),
        decreases n - i,
    {
        if i == at {
            push_char(&mut out, c);
        }
        push_char(&mut out, s.as_str().get_char(i));
        i = i + 1;
        assert(out@ =~= (if i <= at { s@.subrange(0, i as int) } else { inserted(s@, at as int, c).subrange(0, i + 1) }));
    }
    if at == n {
        push_char(&mut out, c);
    }
    assert(out@ =~= inserted(s@, at as int, c));
    out
}

/// `s` without the character at `at`.
fn remove_char(s: &String, at: usize) -> (r: String)
    requires
        at < s@.len(),
    ensures
        r@ == removed(s@, at as int),
{
    let n = s.as_str().unicode_len();
    let mut out = String::new();
    let mut i: usize = 0;
    while i < n
        invariant
            0 <= i <= n,
            n == s@.len(),
            at < n,
            out@ == (if i <= at { s@.subrange(0, i as int) } else { removed(s@, at as int).subrange(0, i - 1) }),
        decreases n - i,
    {
        if i != at {
            push_char(&mut out, s.as_str().get_char(i));
        }
        i = i + 1;
        assert(out@ =~= (if i <= at { s@.subrange(0, i as int) } else { removed(s@, at as int).subrange(0, i - 1) }));
    }
    assert(out@ =~= removed(s@, at as int));
    out
}

/// `pos`, or `len` where `pos` is beyond it.
pub open spec fn clamped(pos: int, len: int) -> int {
    if pos <= len {
        pos
    } else {
        len
    }
}

/// `pos` clamped to the character count of `s`.
fn clamp_to(s: &String, pos: usize) -> (r: usize)
    ensures
        r == clamped(pos as int, s@.len() as int),
{
    let n = s.as_str().unicode_len();
    if pos <= n {
        pos
    } else {
        n
    }
}

/// The text of each string.
pub open spec fn strs_view(v: Seq<&str>) -> Seq<Seq<char>> {
    v.map_values(|s: &str| s@)
}

/// The form's tabs.
pub open spec fn tab_titles() -> Seq<Seq<char>> {
    seq!["Home"@, "Check"@, "About"@, "Quit"@]
}

/// The stop hours offered, 01 to 24.
pub open spec fn hour_choices() -> Seq<Seq<char>> {
    seq!["01"@, "02"@, "03"@, "04"@, "05"@, "06"@, "07"@, "08"@, "09"@, "10"@, "11"@, "12"@, "13"@, "14"@, "15"@, "16"@, "17"@, "18"@, "19"@, "20"@, "21"@, "22"@, "23"@, "24"@]
}

/// The stop minutes offered, 00 to 59.
pub open spec fn minute_choices() -> Seq<Seq<char>> {
    seq!["00"@, "01"@, "02"@, "03"@, "04"@, "05"@, "06"@, "07"@, "08"@, "09"@, "10"@, "11"@, "12"@, "13"@, "14"@, "15"@, "16"@, "17"@, "18"@, "19"@, "20"@, "21"@, "22"@, "23"@, "24"@, "25"@, "26"@, "27"@, "28"@, "29"@, "30"@, "31"@, "32"@, "33"@, "34"@, "35"@, "36"@, "37"@, "38"@, "39"@, "40"@, "41"@, "42"@, "43"@, "44"@, "45"@, "46"@, "47"@, "48"@, "49"@, "50"@, "51"@, "52"@, "53"@, "54"@, "55"@, "56"@, "57"@, "58"@, "59"@]
}

/// The form's state.
pub struct App<'a> {
    pub titles: Vec<&'a str>,
    /// The shown tab: 0 home, 1 check, 2 about.
    pub index: usize,
    pub input_name: String,
    pub input_email: String,
    pub input_website: String,
    /// Cursor positions, counted in characters.
    pub cursor_position_name: usize,
    pub cursor_position_email: usize,
    pub cursor_position_website: usize,
    pub input_mode: InputMode,
    pub name: String,
    pub email: String,
    pub website: String,
    pub hr: String,
    pub min: String,
    pub hr_items: StatefulList<&'a str>,
    pub min_items: StatefulList<&'a str>,
    pub ending_connected: bool,
    pub ending_disconnected: bool,
}

impl<'a> App<'a> {
    /// Every cursor stands within its input.
    pub open spec fn wf(&self) -> bool {
        self.cursor_position_name <= self.input_name@.len()
            && self.cursor_position_email <= self.input_email@.len()
            && self.cursor_position_website <= self.input_website@.len()
    }

    /// An empty form on the home tab, offering the hours 01 to 24 and the
    /// minutes 00 to 59.
    pub fn new() -> (r: App<'a>)
        ensures
            r.wf(),
            r.index == 0,
            r.input_mode == InputMode::Normal,
            r.input_name@.len() == 0 && r.input_email@.len() == 0 && r.input_website@.len() == 0,
            r.name@.len() == 0 && r.email@.len() == 0 && r.website@.len() == 0,
            r.hr@.len() == 0 && r.min@.len() == 0,
            r.cursor_position_name == 0 && r.cursor_position_email == 0 && r.cursor_position_website == 0,
            strs_view(r.titles@) == tab_titles(),
            strs_view(r.hr_items.items@) == hour_choices() && r.hr_items.selected is None,
            strs_view(r.min_items.items@) == minute_choices() && r.min_items.selected is None,
            !r.ending_connected && !r.ending_disconnected,
    {
        App {
            titles: vec!["Home", "Check", "About", "Quit"],
            index: 0,
            input_name: String::new(),
            input_email: String::new(),
            input_website: String::new(),
            cursor_position_name: 0,
            cursor_position_email: 0,
            cursor_position_website: 0,
            input_mode: InputMode::Normal,
            name: String::new(),
            email: String::new(),
            website: String::new(),
            hr: String::new(),
            min: String::new(),
            hr_items: StatefulList::with_items(vec![
                "01", "02", "03", "04", "05", "06",
                "07", "08", "09", "10", "11", "12",
                "13", "14", "15", "16", "17", "18",
                "19", "20", "21", "22", "23", "24",
            ]),
            min_items: StatefulList::with_items(vec![
                "00", "01", "02", "03", "04", "05", "06", "07", "08", "09",
                "10", "11", "12", "13", "14", "15", "16", "17", "18", "19",
                "20", "21", "22", "23", "24", "25", "26", "27", "28", "29",
                "30", "31", "32", "33", "34", "35", "36", "37", "38", "39",
                "40", "41", "42", "43", "44", "45", "46", "47", "48", "49",
                "50", "51", "52", "53", "54", "55", "56", "57", "58", "59",
            ]),
            ending_connected: false,
            ending_disconnected: false,
        }
    }

    /// Shows the check tab.
    pub fn c_render(&mut self)
        ensures
            *final(self) == (App { index: 1, ..*old(self) }),
    {
        self.index = 1;
    }

    /// Shows the about tab.
    pub fn a_render(&mut self)
        ensures
            *final(self) == (App { index: 2, ..*old(self) }),
    {
        self.index = 2;
    }

    /// Shows the home tab.
    pub fn h_render(&mut self)
        ensures
            *final(self) == (App { index: 0, ..*old(self) }),
    {
        self.index = 0;
    }

    /// A cursor position clamped to the name input.
    pub fn clamp_cursor_name(&self, new_cursor_pos: usize) -> (r: usize)
        ensures
            r == clamped(new_cursor_pos as int, self.input_name@.len() as int),
    {
        clamp_to(&self.input_name, new_cursor_pos)
    }

    /// Moves the name cursor one character left, stopping at the start.
    pub fn move_cursor_left_name(&mut self)
        ensures
            *final(self) == (App {
                cursor_position_name: clamped(
                    if old(self).cursor_position_name == 0 { 0 } else { old(self).cursor_position_name - 1 },
                    old(self).input_name@.len() as int,
                ) as usize,
                ..*old(self)
            }),
    {
        let cursor_moved_left = self.cursor_position_name.saturating_sub(1);
        self.cursor_position_name = self.clamp_cursor_name(cursor_moved_left);
    }

    /// Moves the name cursor one character right, stopping at the end.
    pub fn move_cursor_right_name(&mut self)
        ensures
            *final(self) == (App {
                cursor_position_name: clamped(
                    if old(self).cursor_position_name == usize::MAX { usize::MAX as int } else { old(self).cursor_position_name + 1 },
                    old(self).input_name@.len() as int,
                ) as usize,
                ..*old(self)
            }),
    {
        let cursor_moved_right = self.cursor_position_name.saturating_add(1);
        self.cursor_position_name = self.clamp_cursor_name(cursor_moved_right);
    }

    /// Types a character at the name cursor, which moves past it.
    pub fn enter_char_name(&mut self, new_char: char)
        requires
            old(self).wf(),
            old(self).input_name@.len() < usize::MAX,
        ensures
            final(self).input_name@ == inserted(old(self).input_name@, old(self).cursor_position_name as int, new_char),
            *final(self) == (App {
                input_name: final(self).input_name,
                cursor_position_name: (old(self).cursor_position_name + 1) as usize,
                ..*old(self)
            }),
            final(self).wf(),
    {
        self.input_name = insert_char(&self.input_name, self.cursor_position_name, new_char);
        self.move_cursor_right_name();
    }

    /// Deletes the character before the name cursor, which moves back by one;
    /// nothing happens at the start of the input.
    pub fn delete_char_name(&mut self)
        requires
            old(self).wf(),
        ensures
            old(self).cursor_position_name == 0 ==> *final(self) == *old(self),
            old(self).cursor_position_name != 0 ==> final(self).input_name@
                == removed(old(self).input_name@, old(self).cursor_position_name - 1),
            old(self).cursor_position_name != 0 ==> *final(self) == (App {
                input_name: final(self).input_name,
                cursor_position_name: (old(self).cursor_position_name - 1) as usize,
                ..*old(self)
            }),
            final(self).wf(),
    {
        let is_not_cursor_leftmost = self.cursor_position_name != 0;
        if is_not_cursor_leftmost {
            let current_index = self.cursor_position_name;
            self.input_name = remove_char(&self.input_name, current_index - 1);
            self.move_cursor_left_name();
        }
    }

    /// Puts the name cursor at the start.
    pub fn reset_cursor_name(&mut self)
        ensures
            *final(self) == (App { cursor_position_name: 0, ..*old(self) }),
    {
        self.cursor_position_name = 0;
    }

    /// Appends the name input to the submitted name, and empties the input.
    pub fn submit_name(&mut self)
        requires
            old(self).wf(),
        ensures
            final(self).name@ == old(self).name@ + old(self).input_name@,
            final(self).input_name@.len() == 0,
            *final(self) == (App {
                name: final(self).name,
                input_name: final(self).input_name,
                cursor_position_name: 0,
                ..*old(self)
            }),
            final(self).wf(),
    {
        self.name.append(self.input_name.as_str());
        self.input_name = String::new();
        self.reset_cursor_name();
    }

    /// A cursor position clamped to the email input.
    pub fn clamp_cursor_email(&self, new_cursor_pos: usize) -> (r: usize)
        ensures
            r == clamped(new_cursor_pos as int, self.input_email@.len() as int),
    {
        clamp_to(&self.input_email, new_cursor_pos)
    }

    /// Moves the email cursor one character left, stopping at the start.
    pub fn move_cursor_left_email(&mut self)
        ensures
            *final(self) == (App {
                cursor_position_email: clamped(
                    if old(self).cursor_position_email == 0 { 0 } else { old(self).cursor_position_email - 1 },
                    old(self).input_email@.len() as int,
                ) as usize,
                ..*old(self)
            }),
    {
        let cursor_moved_left = self.cursor_position_email.saturating_sub(1);
        self.cursor_position_email = self.clamp_cursor_email(cursor_moved_left);
    }

    /// Moves the email cursor one character right, stopping at the end.
    pub fn move_cursor_right_email(&mut self)
        ensures
            *final(self) == (App {
                cursor_position_email: clamped(
                    if old(self).cursor_position_email == usize::MAX { usize::MAX as int } else { old(self).cursor_position_email + 1 },
                    old(self).input_email@.len() as int,
                ) as usize,
                ..*old(self)
            }),
    {
        let cursor_moved_right = self.cursor_position_email.saturating_add(1);
        self.cursor_position_email = self.clamp_cursor_email(cursor_moved_right);
    }

    /// Types a character at the email cursor, which moves past it.
    pub fn enter_char_email(&mut self, new_char: char)
        requires
            old(self).wf(),
            old(self).input_email@.len() < usize::MAX,
        ensures
            final(self).input_email@ == inserted(old(self).input_email@, old(self).cursor_position_email as int, new_char),
            *final(self) == (App {
                input_email: final(self).input_email,
                cursor_position_email: (old(self).cursor_position_email + 1) as usize,
                ..*old(self)
            }),
            final(self).wf(),
    {
        self.input_email = insert_char(&self.input_email, self.cursor_position_email, new_char);
        self.move_cursor_right_email();
    }

    /// Deletes the character before the email cursor, which moves back by one;
    /// nothing happens at the start of the input.
    pub fn delete_char_email(&mut self)
        requires
            old(self).wf(),
        ensures
            old(self).cursor_position_email == 0 ==> *final(self) == *old(self),
            old(self).cursor_position_email != 0 ==> final(self).input_email@
                == removed(old(self).input_email@, old(self).cursor_position_email - 1),
            old(self).cursor_position_email != 0 ==> *final(self) == (App {
                input_email: final(self).input_email,
                cursor_position_email: (old(self).cursor_position_email - 1) as usize,
                ..*old(self)
            }),
            final(self).wf(),
    {
        let is_not_cursor_leftmost = self.cursor_position_email != 0;
        if is_not_cursor_leftmost {
            let current_index = self.cursor_position_email;
            self.input_email = remove_char(&self.input_email, current_index - 1);
            self.move_cursor_left_email();
        }
    }

    /// Puts the email cursor at the start.
    pub fn reset_cursor_email(&mut self)
        ensures
            *final(self) == (App { cursor_position_email: 0, ..*old(self) }),
    {
        self.cursor_position_email = 0;
    }

    /// Appends the email input to the submitted email, and empties the input.
    pub fn submit_email(&mut self)
        requires
            old(self).wf(),
        ensures
            final(self).email@ == old(self).email@ + old(self).input_email@,
            final(self).input_email@.len() == 0,
            *final(self) == (App {
                email: final(self).email,
                input_email: final(self).input_email,
                cursor_position_email: 0,
                ..*old(self)
            }),
            final(self).wf(),
    {
        self.email.append(self.input_email.as_str());
        self.input_email = String::new();
        self.reset_cursor_email();
    }

    /// A cursor position clamped to the website input.
    pub fn clamp_cursor_website(&self, new_cursor_pos: usize) -> (r: usize)
        ensures
            r == clamped(new_cursor_pos as int, self.input_website@.len() as int),
    {
        clamp_to(&self.input_website, new_cursor_pos)
    }

    /// Moves the website cursor one character left, stopping at the start.
    pub fn move_cursor_left_website(&mut self)
        ensures
            *final(self) == (App {
                cursor_position_website: clamped(
                    if old(self).cursor_position_website == 0 { 0 } else { old(self).cursor_position_website - 1 },
                    old(self).input_website@.len() as int,
                ) as usize,
                ..*old(self)
            }),
    {
        let cursor_moved_left = self.cursor_position_website.saturating_sub(1);
        self.cursor_position_website = self.clamp_cursor_website(cursor_moved_left);
    }

    /// Moves the website cursor one character right, stopping at the end.
    pub fn move_cursor_right_website(&mut self)
        ensures
            *final(self) == (App {
                cursor_position_website: clamped(
                    if old(self).cursor_position_website == usize::MAX { usize::MAX as int } else { old(self).cursor_position_website + 1 },
                    old(self).input_website@.len() as int,
                ) as usize,
                ..*old(self)
            }),
    {
        let cursor_moved_right = self.cursor_position_website.saturating_add(1);
        self.cursor_position_website = self.clamp_cursor_website(cursor_moved_right);
    }

    /// Types a character at the website cursor, which moves past it.
    pub fn enter_char_website(&mut self, new_char: char)
        requires
            old(self).wf(),
            old(self).input_website@.len() < usize::MAX,
        ensures
            final(self).input_website@ == inserted(old(self).input_website@, old(self).cursor_position_website as int, new_char),
            *final(self) == (App {
                input_website: final(self).input_website,
                cursor_position_website: (old(self).cursor_position_website + 1) as usize,
                ..*old(self)
            }),
            final(self).wf(),
    {
        self.input_website = insert_char(&self.input_website, self.cursor_position_website, new_char);
        self.move_cursor_right_website();
    }

    /// Deletes the character before the website cursor, which moves back by one;
    /// nothing happens at the start of the input.
    pub fn delete_char_website(&mut self)
        requires
            old(self).wf(),
        ensures
            old(self).cursor_position_website == 0 ==> *final(self) == *old(self),
            old(self).cursor_position_website != 0 ==> final(self).input_website@
                == removed(old(self).input_website@, old(self).cursor_position_website - 1),
            old(self).cursor_position_website != 0 ==> *final(self) == (App {
                input_website: final(self).input_website,
                cursor_position_website: (old(self).cursor_position_website - 1) as usize,
                ..*old(self)
            }),
            final(self).wf(),
    {
        let is_not_cursor_leftmost = self.cursor_position_website != 0;
        if is_not_cursor_leftmost {
            let current_index = self.cursor_position_website;
            self.input_website = remove_char(&self.input_website, current_index - 1);
            self.move_cursor_left_website();
        }
    }

    /// Puts the website cursor at the start.
    pub fn reset_cursor_website(&mut self)
        ensures
            *final(self) == (App { cursor_position_website: 0, ..*old(self) }),
    {
        self.cursor_position_website = 0;
    }

    /// Appends the website input to the submitted website, and empties the input.
    pub fn submit_website(&mut self)
        requires
            old(self).wf(),
        ensures
            final(self).website@ == old(self).website@ + old(self).input_website@,
            final(self).input_website@.len() == 0,
            *final(self) == (App {
                website: final(self).website,
                input_website: final(self).input_website,
                cursor_position_website: 0,
                ..*old(self)
            }),
            final(self).wf(),
    {
        self.website.append(self.input_website.as_str());
        self.input_website = String::new();
        self.reset_cursor_website();
    }
}

} // verus!
