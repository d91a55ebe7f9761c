//! The window registry and the lifecycle of the singleton settings
//! window.
//!
//! The core never owns native windows; it sees the windowing collaborator
//! as a registry of labelled window configurations plus the focus, and
//! issues its decisions as changes to that value.  The one lifecycle rule
//! enforced here: at most one settings window ever exists — opening it a
//! second time focuses the existing one.

use vstd::prelude::*;
use crate::errors::FileError;
use crate::text::str_eq;

verus! {

/// The configuration of one window, as the core asked for it.
#[derive(Debug, Clone, PartialEq, Eq)]
pub struct WindowConfig {
    pub label: String,
    pub parent: Option<String>,
    pub width: u64,
    pub height: u64,
    pub resizable: bool,
    pub centered: bool,
    pub url: String,
}

/// The windowing collaborator as the core sees it: the windows that
/// exist, by label, in creation order, and which of them holds focus.
#[derive(Debug, Clone, PartialEq, Eq)]
pub struct WindowRegistry {
    pub windows: Vec<WindowConfig>,
    pub focused: Option<usize>,
}

/// Index of the first window labelled `label`, if any.
pub open spec fn find_label(ws: Seq<WindowConfig>, label: Seq<char>) -> Option<int>
    decreases ws.len(),
{
    if ws.len() == 0 {
        None
    } else if ws[0].label@ == label {
        Some(0)
    } else {
        match find_label(ws.drop_first(), label) {
            Some(i) => Some(i + 1),
            None => None,
        }
    }
}

/// How many windows carry `label`.
pub open spec fn count_label(ws: Seq<WindowConfig>, label: Seq<char>) -> int
    decreases ws.len(),
{
    if ws.len() == 0 {
        0
    } else {
        count_label(ws.drop_last(), label) + (if ws.last().label@ == label {
            1int
        } else {
            0int
        })
    }
}

/// A count of labels is never negative.
pub proof fn lemma_count_label_nonneg(ws: Seq<WindowConfig>, label: Seq<char>)
    ensures
        count_label(ws, label) >= 0,
    decreases ws.len(),
{
    if ws.len() > 0 {
        lemma_count_label_nonneg(ws.drop_last(), label);
    }
}

proof fn lemma_count_label_zero(ws: Seq<WindowConfig>, label: Seq<char>)
    requires
        forall|k: int| 0 <= k < ws.len() ==> ws[k].label@ != label,
    ensures
        count_label(ws, label) == 0,
    decreases ws.len(),
{
    if ws.len() > 0 {
        assert forall|k: int| 0 <= k < ws.len() - 1 implies ws.drop_last()[k].label@ != label by {
            assert(ws.drop_last()[k] == ws[k]);
        }
        lemma_count_label_zero(ws.drop_last(), label);
    }
}

proof fn lemma_count_label_ge1(ws: Seq<WindowConfig>, label: Seq<char>, m: int)
    requires
        0 <= m < ws.len(),
        ws[m].label@ == label,
    ensures
        count_label(ws, label) >= 1,
    decreases ws.len(),
{
    lemma_count_label_nonneg(ws.drop_last(), label);
    if m < ws.len() - 1 {
        assert(ws.drop_last()[m] == ws[m]);
        lemma_count_label_ge1(ws.drop_last(), label, m);
    }
}

/// `find_label` lies in range, points at `label`, and is the first match.
pub proof fn lemma_find_label_props(ws: Seq<WindowConfig>, label: Seq<char>)
    ensures
        match find_label(ws, label) {
            Some(i) => 0 <= i < ws.len() && ws[i].label@ == label && forall|k: int|
                0 <= k < i ==> ws[k].label@ != label,
            None => forall|k: int| 0 <= k < ws.len() ==> ws[k].label@ != label,
        },
    decreases ws.len(),
{
    if ws.len() > 0 && ws[0].label@ != label {
        lemma_find_label_props(ws.drop_first(), label);
        match find_label(ws.drop_first(), label) {
            Some(i) => {
                assert(ws.drop_first()[i] == ws[i + 1]);
                assert forall|k: int| 0 <= k < i + 1 implies ws[k].label@ != label by {
                    if k > 0 {
                        assert(ws.drop_first()[k - 1] == ws[k]);
                    }
                }
            },
            None => {
                assert forall|k: int| 0 <= k < ws.len() implies ws[k].label@ != label by {
                    if k > 0 {
                        assert(ws.drop_first()[k - 1] == ws[k]);
                    }
                }
            },
        }
    }
}

/// A position carrying `label` with no earlier one is where `find_label`
/// points.
pub proof fn lemma_find_label_at(ws: Seq<WindowConfig>, label: Seq<char>, m: int)
    requires
        0 <= m < ws.len(),
        ws[m].label@ == label,
        forall|k: int| 0 <= k < m ==> ws[k].label@ != label,
    ensures
        find_label(ws, label) == Some(m),
    decreases ws.len(),
{
    if m > 0 {
        assert forall|k: int| 0 <= k < m - 1 implies ws.drop_first()[k].label@ != label by {
            assert(ws.drop_first()[k] == ws[k + 1]);
        }
        assert(ws.drop_first()[m - 1] == ws[m]);
        lemma_find_label_at(ws.drop_first(), label, m - 1);
    }
}

/// A label that `find_label` misses counts zero; one it finds counts at
/// least one.
pub proof fn lemma_count_label_find(ws: Seq<WindowConfig>, label: Seq<char>)
    ensures
        find_label(ws, label) is None ==> count_label(ws, label) == 0,
        find_label(ws, label) is Some ==> count_label(ws, label) >= 1,
        count_label(ws, label) >= 0,
{
    lemma_count_label_nonneg(ws, label);
    lemma_find_label_props(ws, label);
    match find_label(ws, label) {
        None => {
            lemma_count_label_zero(ws, label);
        },
        Some(i) => {
            lemma_count_label_ge1(ws, label, i);
        },
    }
}

/// Appending one window adds its label to the count.
pub proof fn lemma_count_label_push(ws: Seq<WindowConfig>, label: Seq<char>, c: WindowConfig)
    ensures
        count_label(ws.push(c), label) == count_label(ws, label) + (if c.label@ == label {
            1int
        } else {
            0int
        }),
{
    assert(ws.push(c).drop_last() =~= ws);
    assert(ws.push(c).last() == c);
}

/// Whether a window labelled `settings` exists.
pub open spec fn settings_present(ws: Seq<WindowConfig>) -> bool {
    find_label(ws, "settings"@) is Some
}

/// Whether a window labelled `main` exists.
pub open spec fn main_present(ws: Seq<WindowConfig>) -> bool {
    find_label(ws, "main"@) is Some
}

/// The configuration the settings window is created with: a child of the
/// main window, fixed 700 by 500, not resizable, centered, showing the
/// settings surface.
pub open spec fn is_settings_config(c: WindowConfig) -> bool {
    c.label@ == "settings"@ && (c.parent matches Some(p) && p@ == "main"@) && c.width == 700
        && c.height == 500 && !c.resizable && c.centered && c.url@ == "settings.html"@
}

/// How `open_settings` changes the registry: an existing settings window
/// is focused and nothing else moves; otherwise, with a main window
/// present, one settings window is created (taking focus) as the newest
/// entry; without a main window nothing changes.
pub open spec fn open_settings_post(pre: WindowRegistry, post: WindowRegistry) -> bool {
    match find_label(pre.windows@, "settings"@) {
        Some(i) => post.windows@ == pre.windows@ && post.focused == Some(i as usize),
        None => match find_label(pre.windows@, "main"@) {
            Some(_) => post.windows@.len() == pre.windows@.len() + 1
                && post.windows@.drop_last() == pre.windows@ && is_settings_config(
                post.windows@.last(),
            ) && post.focused == Some(pre.windows@.len() as usize),
            None => post == pre,
        },
    }
}

/// Index of the first window labelled `label`.
pub fn find_label_exec(ws: &Vec<WindowConfig>, label: &str) -> (r: Option<usize>)
    ensures
        match r {
            Some(i) => i < ws.len() && find_label(ws@, label@) == Some(i as int),
            None => find_label(ws@, label@) is None,
        },
{
    let n: usize = ws.len();
    let mut i: usize = 0;
    while i < n
        invariant
            i <= n,
            n == ws.len(),
            forall|k: int| 0 <= k < i ==> ws@[k].label@ != label@,
        decreases n - i,
    {
        if str_eq(ws[i].label.as_str(), label) {
            proof {
                lemma_find_label_at(ws@, label@, i as int);
            }
            return Some(i);
        }
        i = i + 1;
    }
    proof {
        lemma_find_label_props(ws@, label@);
        if let Some(m) = find_label(ws@, label@) {
            assert(ws@[m].label@ != label@);
        }
    }
    None
}

impl WindowRegistry {
    /// Open the settings window: focus it if it already exists (never a
    /// second instance); otherwise create it as a child of the main
    /// window, which must exist.
    pub fn open_settings(&mut self) -> (r: Result<(), FileError>)
        ensures
            open_settings_post(*old(self), *final(self)),
            r is Ok <==> (settings_present(old(self).windows@) || main_present(
                old(self).windows@,
            )),
            r is Err ==> r == Err::<(), FileError>(FileError::PreconditionError),
    {
        match find_label_exec(&self.windows, "settings") {
            Some(i) => {
                self.focused = Some(i);
                Ok(())
            },
            None => {
                match find_label_exec(&self.windows, "main") {
                    None => Err(FileError::PreconditionError),
                    Some(_) => {
                        let cfg = WindowConfig {
                            label: String::from_str("settings"),
                            parent: Some(String::from_str("main")),
                            width: 700,
                            height: 500,
                            resizable: false,
                            centered: true,
                            url: String::from_str("settings.html"),
                        };
                        let ghost pre = self.windows@;
                        self.focused = Some(self.windows.len());
                        self.windows.push(cfg);
                        proof {
                            assert(self.windows@.drop_last() =~= pre);
                        }
                        Ok(())
                    },
                }
            },
        }
    }
}

/// Opening the settings window twice in succession is idempotent: from a
/// registry with no settings window and a main window, the first open
/// creates the one settings window and focuses it, and the second open
/// changes nothing and focuses that same window — exactly one settings
/// window ever exists.
pub proof fn lemma_open_settings_idempotent(a: WindowRegistry, b: WindowRegistry, c: WindowRegistry)
    requires
        count_label(a.windows@, "settings"@) == 0,
        main_present(a.windows@),
        open_settings_post(a, b),
        open_settings_post(b, c),
    ensures
        count_label(b.windows@, "settings"@) == 1,
        c.windows@ == b.windows@,
        c.focused == b.focused,
        count_label(c.windows@, "settings"@) == 1,
{
    lemma_count_label_find(a.windows@, "settings"@);
    assert(find_label(a.windows@, "settings"@) is None);
    let cfg = b.windows@.last();
    assert(b.windows@ =~= a.windows@.push(cfg));
    lemma_count_label_push(a.windows@, "settings"@, cfg);
    lemma_find_label_props(a.windows@, "settings"@);
    lemma_find_label_at(b.windows@, "settings"@, a.windows@.len() as int);
    assert(b.focused == Some(a.windows@.len() as usize));
}

} // verus!
