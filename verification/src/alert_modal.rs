//! The pair of alert dialogs: a list, and the detail of a chosen entry.

use crate::text::{byte_len, push_decimal, take_bytes};
use vstd::prelude::*;
use vstd::string::*;

verus! {

/// Which of the dialogs are open, and the entry that was chosen.
#[derive(Clone, Copy, Debug, PartialEq, Eq, Structural)]
pub struct AlertDialogs {
    pub list_open: bool,
    pub detail_open: bool,
    pub selected: Option<usize>,
}

/// What the user does in the dialogs.
#[derive(Clone, Copy, Debug, PartialEq, Eq, Structural)]
pub enum AlertClick {
    /// The backdrop or the Close button of the list.
    CloseList,
    /// An entry of the list.
    Entry(usize),
    /// The backdrop or the Close button of the detail.
    CloseDetail,
    BackToList,
}

impl AlertDialogs {
    /// The dialogs after a click.
    pub open spec fn clicked(self, click: AlertClick) -> AlertDialogs {
        match click {
            AlertClick::CloseList => AlertDialogs { list_open: false, ..self },
            AlertClick::Entry(i) => AlertDialogs {
                list_open: false,
                detail_open: true,
                selected: Some(i),
            },
            AlertClick::CloseDetail => AlertDialogs { detail_open: false, ..self },
            AlertClick::BackToList => AlertDialogs { list_open: true, detail_open: false, ..self },
        }
    }

    /// Takes a click.
    pub fn click(&mut self, click: AlertClick)
        ensures
            *final(self) == old(self).clicked(click),
    {
        match click {
            AlertClick::CloseList => {
                self.list_open = false;
            },
            AlertClick::Entry(i) => {
                self.selected = Some(i);
                self.list_open = false;
                self.detail_open = true;
            },
            AlertClick::CloseDetail => {
                self.detail_open = false;
            },
            AlertClick::BackToList => {
                self.detail_open = false;
                self.list_open = true;
            },
        }
    }

    /// The entry that the detail shows. Where the chosen one is no longer among
    /// the `count` alerts, the detail closes.
    pub fn detail(&mut self, count: usize) -> (r: Option<usize>)
        ensures
            ({
                let there = old(self).selected matches Some(i) && i < count;
                &&& r == (if old(self).detail_open && there {
                    old(self).selected
                } else {
                    None
                })
                &&& *final(self) == (AlertDialogs {
                    detail_open: old(self).detail_open && there,
                    ..*old(self)
                })
            }),
    {
        if !self.detail_open {
            return None;
        }
        match self.selected {
            Some(i) => {
                if i < count {
                    return Some(i);
                }
            },
            None => {},
        }
        self.detail_open = false;
        None
    }
}

/// Whichever way the dialogs are used, choosing an entry leaves only the
/// detail open, on that entry, and going back leaves only the list.
pub proof fn one_dialog_after_choosing(d: AlertDialogs, i: usize)
    ensures
        d.clicked(AlertClick::Entry(i)) == (AlertDialogs {
            list_open: false,
            detail_open: true,
            selected: Some(i),
        }),
        d.clicked(AlertClick::Entry(i)).clicked(AlertClick::BackToList) == (AlertDialogs {
            list_open: true,
            detail_open: false,
            selected: Some(i),
        }),
{
}

/// How many alerts the list holds.
pub fn count_text(n: usize) -> (s: String)
    ensures
        s@ == (if n == 0 {
            "No active alerts for this area."@
        } else {
            crate::text::decimal(n as nat) + " active alert"@ + (if n == 1 {
                ""@
            } else {
                "s"@
            })
        }),
{
    if n == 0 {
        return "No active alerts for this area.".to_owned();
    }
    let mut s = String::new();
    push_decimal(&mut s, n as u64);
    s.append(" active alert");
    if n == 1 {
        s.append("");
    } else {
        s.append("s");
    }
    s
}

/// A headline for the list: all of it up to 80 bytes, else its first 77.
pub open spec fn short_headline(headline: Seq<char>) -> Seq<char> {
    if crate::text::bytes(headline).len() > 80 {
        crate::text::byte_prefix(headline, 77) + "..."@
    } else {
        headline
    }
}

/// A headline for the list. A long one has a whole character at its cut.
pub fn shorten_headline(headline: &str) -> (s: String)
    requires
        crate::text::bytes(headline@).len() > 80 ==> crate::text::splits_at(headline@, 77),
    ensures
        s@ == short_headline(headline@),
{
    if byte_len(headline) > 80 {
        let mut s = take_bytes(headline, 77);
        s.append("...");
        s
    } else {
        headline.to_owned()
    }
}

/// Choosing an entry swaps the list for its detail; going back swaps them again and
/// keeps the choice; closing closes only the one dialog.
pub proof fn dialogs_give_way_to_each_other(d: AlertDialogs, i: usize)
    ensures
        !d.clicked(AlertClick::CloseList).list_open,
        d.clicked(AlertClick::CloseList).detail_open == d.detail_open,
        d.clicked(AlertClick::CloseList).selected == d.selected,
        !d.clicked(AlertClick::CloseDetail).detail_open,
        d.clicked(AlertClick::CloseDetail).list_open == d.list_open,
        d.clicked(AlertClick::CloseDetail).selected == d.selected,
        d.clicked(AlertClick::Entry(i)).selected == Some(i),
        d.clicked(AlertClick::Entry(i)).detail_open && !d.clicked(AlertClick::Entry(i)).list_open,
        d.clicked(AlertClick::BackToList).list_open && !d.clicked(
            AlertClick::BackToList,
        ).detail_open,
        d.clicked(AlertClick::Entry(i)).clicked(AlertClick::BackToList).selected == Some(i),
{
}

/// A headline of up to eighty bytes is kept; of a longer one the first seventy-seven
/// bytes are, with dots behind them.
pub proof fn long_headlines_are_cut(headline: Seq<char>)
    ensures
        crate::text::bytes(headline).len() <= 80 ==> short_headline(headline) == headline,
        crate::text::bytes(headline).len() > 80 ==> short_headline(headline)
            == crate::text::byte_prefix(headline, 77) + "..."@,
{
}

/// The detail of an entry that is gone closes itself; that of one that is there stays
/// and tells which it is.
pub proof fn the_detail_of_a_lost_entry_closes(d: &mut AlertDialogs, count: usize, r: Option<usize>)
    requires
        call_ensures(AlertDialogs::detail, (d, count), r),
    ensures
        r is Some ==> r == old(d).selected && r->0 < count && final(d).detail_open,
        r is None ==> !final(d).detail_open,
        old(d).detail_open && old(d).selected is Some && old(d).selected->0 < count ==> r is Some,
        final(d).list_open == old(d).list_open && final(d).selected == old(d).selected,
{
}

/// No alert, one alert and several are each spoken of in their own way.
pub proof fn alerts_are_counted_in_words(n: usize, s: String)
    requires
        call_ensures(count_text, (n,), s),
    ensures
        n == 0 ==> s@ == "No active alerts for this area."@,
        n == 1 ==> s@ == crate::text::decimal(1) + " active alert"@,
        n > 1 ==> s@ == crate::text::decimal(n as nat) + " active alert"@ + "s"@,
{
    reveal_strlit("");
    if n == 1 {
        assert(s@ =~= crate::text::decimal(1) + " active alert"@);
    }
}

} // verus!
