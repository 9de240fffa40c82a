use vstd::prelude::*;

use crate::editor::{remap_key, spec_remap_key};
use crate::keys::{KeyCode, KeyEvent};

verus! {

/// The text fields of the filter popup.
#[derive(Debug, Clone, Copy, PartialEq, Eq, Structural)]
pub enum FilterField {
    /// The keyword of a keyword search.
    Keyword,
    /// The JSON path of a JSON path search.
    JsonPath,
    /// The query of a JSON path search.
    Query,
}

/// One tab of the filter popup.
#[derive(Debug, Clone, Copy, PartialEq, Eq, Structural)]
pub enum Tab {
    KeywordSearch { is_regex_checked: bool },
    JsonPathSearch { selected_text_area: usize, is_regex_checked: bool },
}

/// The popup that asks how to filter the items of a list: a keyword search or a search by
/// JSON path, each with a regular-expression switch.
#[derive(Debug, Clone, Copy, PartialEq, Eq, Structural)]
pub struct FilterPopup {
    pub selected: usize,
    pub keyword_search: Tab,
    pub json_path_search: Tab,
}

/// The names of the two tabs, in order.
pub open spec fn tab_names() -> Seq<Seq<char>> {
    seq![" Keyword Search "@, " JSON Path Search "@]
}

/// Whether the tab `t` searches with regular expressions.
pub open spec fn regex_on(t: Tab) -> bool {
    match t {
        Tab::KeywordSearch { is_regex_checked } => is_regex_checked,
        Tab::JsonPathSearch { is_regex_checked, .. } => is_regex_checked,
    }
}

/// The popup a new filter starts with: the keyword search selected, regular expressions on.
pub open spec fn initial_filter_popup() -> FilterPopup {
    FilterPopup {
        selected: 0,
        keyword_search: Tab::KeywordSearch { is_regex_checked: true },
        json_path_search: Tab::JsonPathSearch { selected_text_area: 0, is_regex_checked: true },
    }
}

/// What a key press does to the filter popup `p`, and which field's text area receives
/// which key: `enter` does nothing here, `tab` switches the tab, `F1` switches regular
/// expressions on or off, and up and down choose a field of the JSON path search.
pub open spec fn filter_key_result(p: FilterPopup, key: KeyEvent, is_macos: bool) -> (FilterPopup, Option<(FilterField, KeyEvent)>) {
    if key.code == KeyCode::Enter {
        (p, None)
    } else if key.code == KeyCode::Tab {
        (FilterPopup { selected: ((p.selected + 1) % 2) as usize, ..p }, None)
    } else {
        let k = spec_remap_key(key, is_macos);
        if p.selected == 0 {
            match p.keyword_search {
                Tab::KeywordSearch { is_regex_checked } => if k.code == KeyCode::F(1) {
                    (FilterPopup { keyword_search: Tab::KeywordSearch { is_regex_checked: !is_regex_checked }, ..p }, None)
                } else {
                    (p, Some((FilterField::Keyword, k)))
                },
                _ => (p, None),
            }
        } else {
            match p.json_path_search {
                Tab::JsonPathSearch { selected_text_area, is_regex_checked } => {
                    let area: usize = if k.code == KeyCode::Up {
                        0
                    } else if k.code == KeyCode::Down {
                        1
                    } else {
                        selected_text_area
                    };
                    let regex = if k.code == KeyCode::F(1) {
                        !is_regex_checked
                    } else {
                        is_regex_checked
                    };
                    (
                        FilterPopup {
                            json_path_search: Tab::JsonPathSearch { selected_text_area: area, is_regex_checked: regex },
                            ..p
                        },
                        Some((if area == 0 { FilterField::JsonPath } else { FilterField::Query }, k)),
                    )
                },
                _ => (p, None),
            }
        }
    }
}

impl FilterPopup {
    /// The popup with the keyword search selected and both regular-expression switches on.
    pub fn new() -> (p: FilterPopup)
        ensures
            p == initial_filter_popup(),
            p.wf(),
    {
        FilterPopup {
            selected: 0,
            keyword_search: Tab::KeywordSearch { is_regex_checked: true },
            json_path_search: Tab::JsonPathSearch { selected_text_area: 0, is_regex_checked: true },
        }
    }

    /// The popup's title.
    pub fn title(&self) -> (t: &'static str)
        ensures
            t@ == "Filter Items"@,
    {
        "Filter Items"
    }

    /// The key hints at the bottom of the popup.
    pub fn footer(&self) -> (f: &'static str)
        ensures
            f@ == "[Tab] Select Search  [Esc] Close  [Enter] Filter"@,
    {
        "[Tab] Select Search  [Esc] Close  [Enter] Filter"
    }

    /// The share of the screen's height that the popup takes, in percent.
    pub fn percent_y(&self) -> (p: u16)
        ensures
            p == 60,
    {
        60
    }

    /// The names of the two tabs, in order.
    pub fn tab_names(&self) -> (names: (&'static str, &'static str))
        ensures
            seq![names.0@, names.1@] == tab_names(),
    {
        (" Keyword Search ", " JSON Path Search ")
    }

    /// The line that tells whether the selected tab searches with regular expressions.
    pub fn regex_checkbox(&self) -> (line: &'static str)
        requires
            self.wf(),
        ensures
            line@ == if regex_on(if self.selected == 0 {
                self.keyword_search
            } else {
                self.json_path_search
            }) {
                "(*) RegEx Support [F1]"@
            } else {
                "( ) RegEx Support [F1]"@
            },
    {
        let checked = match self.get_selected_tab() {
            Tab::KeywordSearch { is_regex_checked } => *is_regex_checked,
            Tab::JsonPathSearch { is_regex_checked, .. } => *is_regex_checked,
        };
        if checked {
            "(*) RegEx Support [F1]"
        } else {
            "( ) RegEx Support [F1]"
        }
    }

    /// A state the popup can be in: one of its two tabs is selected, and the JSON path search
    /// has one of its two fields selected.
    pub open spec fn wf(&self) -> bool {
        &&& self.selected < 2
        &&& self.keyword_search is KeywordSearch
        &&& self.json_path_search matches Tab::JsonPathSearch { selected_text_area, .. } && selected_text_area < 2
    }

    /// The tab that is shown.
    pub fn get_selected_tab(&self) -> (t: &Tab)
        requires
            self.wf(),
        ensures
            self.selected == 0 ==> *t == self.keyword_search,
            self.selected == 1 ==> *t == self.json_path_search,
    {
        if self.selected == 0 {
            &self.keyword_search
        } else {
            &self.json_path_search
        }
    }

    /// Handles a key press: `enter` does nothing here, `tab` switches the tab, `F1` switches
    /// regular expressions on or off, and up and down choose a field of the JSON path search.
    /// The result is the field whose text area receives the key, and the key it receives.
    pub fn handle_key_events(&mut self, key: KeyEvent, is_macos: bool) -> (r: Option<(FilterField, KeyEvent)>)
        requires
            old(self).wf(),
        ensures
            final(self).wf(),
            (*final(self), r) == filter_key_result(*old(self), key, is_macos),
    {
        if key.code == KeyCode::Enter {
            return None;
        }
        if key.code == KeyCode::Tab {
            self.selected = (self.selected + 1) % 2;
            return None;
        }
        let k = remap_key(key, is_macos);
        if self.selected == 0 {
            match self.keyword_search {
                Tab::KeywordSearch { is_regex_checked } => {
                    if k.code == KeyCode::F(1) {
                        self.keyword_search = Tab::KeywordSearch { is_regex_checked: !is_regex_checked };
                        None
                    } else {
                        Some((FilterField::Keyword, k))
                    }
                },
                _ => None,
            }
        } else {
            match self.json_path_search {
                Tab::JsonPathSearch { selected_text_area, is_regex_checked } => {
                    let area = if k.code == KeyCode::Up {
                        0
                    } else if k.code == KeyCode::Down {
                        1
                    } else {
                        selected_text_area
                    };
                    let regex = if k.code == KeyCode::F(1) {
                        !is_regex_checked
                    } else {
                        is_regex_checked
                    };
                    self.json_path_search = Tab::JsonPathSearch { selected_text_area: area, is_regex_checked: regex };
                    let field = if area == 0 {
                        FilterField::JsonPath
                    } else {
                        FilterField::Query
                    };
                    Some((field, k))
                },
                _ => None,
            }
        }
    }
}

} // verus!
