//! The help menu: one page of key bindings per component, and one for the global bindings.
use vstd::prelude::*;

use crate::action::localaction::HelpAction;
use crate::keyhelp::ComponentKeyHelp;
use crate::strings::{dec, push_dec, push_str};

verus! {

/// The page shown.
#[derive(Clone, Copy, Debug, PartialEq, Eq, Structural)]
pub enum Index {
    /// The global bindings.
    Global,
    /// The bindings of the component at this position.
    Local(usize),
}

/// The title of a page: `(current/outof) Help for ← title →`, or `Help for title` when there is
/// a single page.
pub open spec fn block_title(title: Seq<char>, current: nat, outof: nat) -> Seq<char> {
    if outof != 1 {
        "("@ + dec(current) + "/"@ + dec(outof) + ") Help for ← "@ + title + " →"@
    } else {
        "Help for "@ + title
    }
}

/// The title shown for `current` among the component pages `names`.
pub open spec fn page_title(current: Index, names: Seq<Seq<char>>) -> Seq<char> {
    match current {
        Index::Global => block_title("Global"@, names.len() + 1, names.len() + 1),
        Index::Local(i) => block_title(names[i as int], (i + 1) as nat, names.len() + 1),
    }
}

/// The page to the left: the pages form a ring, the global page after the last component.
pub open spec fn page_left(current: Index, len: nat) -> Index {
    if len == 0 {
        current
    } else {
        match current {
            Index::Global => Index::Local((len - 1) as usize),
            Index::Local(i) => if i == 0 { Index::Global } else { Index::Local((i - 1) as usize) },
        }
    }
}

/// The page to the right.
pub open spec fn page_right(current: Index, len: nat) -> Index {
    if len == 0 {
        current
    } else {
        match current {
            Index::Global => Index::Local(0),
            Index::Local(i) => if i == len - 1 { Index::Global } else { Index::Local((i + 1) as usize) },
        }
    }
}

/// The page refers to an existing component page.
pub open spec fn index_fits(current: Index, len: nat) -> bool {
    current matches Index::Local(i) ==> i < len
}

/// The help menu.
pub struct Help {
    /// The bindings of each component, one page each.
    pub table: Vec<ComponentKeyHelp>,
    pub current: Index,
    /// The title of the menu's border.
    pub title: String,
    /// The global bindings.
    pub global: ComponentKeyHelp,
}

/// Builds a page title.
pub fn gen_block(title: &str, current: usize, outof: usize) -> (s: String)
    ensures
        s@ == block_title(title@, current as nat, outof as nat),
{
    let mut s = String::new();
    if outof != 1 {
        push_str(&mut s, "(");
        push_dec(&mut s, current as u64);
        push_str(&mut s, "/");
        push_dec(&mut s, outof as u64);
        push_str(&mut s, ") Help for ← ");
        push_str(&mut s, title);
        push_str(&mut s, " →");
    } else {
        push_str(&mut s, "Help for ");
        push_str(&mut s, title);
    }
    s
}

impl Help {
    /// The names of the component pages.
    pub open spec fn names(&self) -> Seq<Seq<char>> {
        Seq::new(self.table@.len(), |i: int| self.table@[i].name@)
    }

    /// The page shown exists and the title names it.
    pub open spec fn wf(&self) -> bool {
        &&& index_fits(self.current, self.table@.len())
        &&& self.title@ == page_title(self.current, self.names())
        &&& self.table@.len() + 1 <= usize::MAX
    }

    /// A help menu with no component page yet, showing the global bindings `global`.
    pub fn new(global: ComponentKeyHelp) -> (r: Self)
        ensures
            r.table@.len() == 0,
            r.current == Index::Local(0),
            r.title@ == block_title(""@, 1, 1),
            r.global == global,
    {
        Self { table: Vec::new(), current: Index::Local(0), title: gen_block("", 1, 1), global }
    }

    /// The title for the current page.
    fn retitle(&mut self)
        requires
            index_fits(old(self).current, old(self).table@.len()),
            old(self).table@.len() + 1 <= usize::MAX,
        ensures
            final(self).wf(),
            final(self).table == old(self).table,
            final(self).current == old(self).current,
            final(self).global == old(self).global,
    {
        let len = self.table.len();
        self.title = match self.current {
            Index::Global => gen_block("Global", len + 1, len + 1),
            Index::Local(i) => gen_block(self.table[i].name.as_str(), i + 1, len + 1),
        };
    }

    /// Shows the pages of `binds`, starting with the first, or the global page when there is
    /// none.
    pub fn display(&mut self, binds: Vec<ComponentKeyHelp>)
        requires
            binds@.len() + 1 <= usize::MAX,
        ensures
            final(self).wf(),
            final(self).table@ == binds@,
            final(self).current == (if binds@.len() == 0 { Index::Global } else { Index::Local(0) }),
            final(self).global == old(self).global,
    {
        self.table = binds;
        self.current = if self.table.len() == 0 { Index::Global } else { Index::Local(0) };
        self.retitle();
    }

    /// Moves between pages, or asks to close the menu (the result is then true).
    pub fn handle_local_action(&mut self, action: HelpAction) -> (close: bool)
        requires
            old(self).wf(),
        ensures
            close == (action == HelpAction::Close),
            close ==> *final(self) == *old(self),
            !close ==> {
                &&& final(self).wf()
                &&& final(self).table == old(self).table
                &&& final(self).current == match action {
                    HelpAction::Left => page_left(old(self).current, old(self).table@.len()),
                    HelpAction::Right => page_right(old(self).current, old(self).table@.len()),
                    _ => old(self).current,
                }
            },
    {
        let len = self.table.len();
        match action {
            HelpAction::Left => {
                if len != 0 {
                    self.current = match self.current {
                        Index::Global => Index::Local(len - 1),
                        Index::Local(i) => if i == 0 { Index::Global } else { Index::Local(i - 1) },
                    }
                }
            },
            HelpAction::Right => {
                if len != 0 {
                    self.current = match self.current {
                        Index::Global => Index::Local(0),
                        Index::Local(i) => if i == len - 1 { Index::Global } else { Index::Local(i + 1) },
                    }
                }
            },
            HelpAction::Close => {
                return true;
            },
            _ => {},
        }
        self.retitle();
        false
    }
}

/// Moving to the right page undoes moving to the left one and back, on any valid page.
pub proof fn lemma_left_right_inverse(current: Index, len: nat)
    requires
        index_fits(current, len),
        len <= usize::MAX,
    ensures
        page_right(page_left(current, len), len) == current,
        page_left(page_right(current, len), len) == current,
        index_fits(page_left(current, len), len),
        index_fits(page_right(current, len), len),
{
}

/// The place of a page in the ring: the component pages in order, then the global page.
pub open spec fn page_position(current: Index, len: nat) -> int {
    match current {
        Index::Global => len as int,
        Index::Local(i) => i as int,
    }
}

/// The page at place `p` of the ring.
pub open spec fn page_at(p: int, len: nat) -> Index {
    if p == len { Index::Global } else { Index::Local(p as usize) }
}

/// The page reached from `current` by `k` moves to the right.
pub open spec fn rights(current: Index, len: nat, k: nat) -> Index
    decreases k,
{
    if k == 0 { current } else { page_right(rights(current, len, (k - 1) as nat), len) }
}

/// `k` moves to the right advance the place in the ring by `k`, round the ring.
proof fn lemma_rights_position(current: Index, len: nat, k: nat)
    requires
        index_fits(current, len),
        len < usize::MAX,
    ensures
        rights(current, len, k) == page_at((page_position(current, len) + k) % ((len + 1) as int), len),
    decreases k,
{
    let m = len + 1;
    let p = page_position(current, len);
    if k == 0 {
        vstd::arithmetic::div_mod::lemma_small_mod(p as nat, m as nat);
    } else {
        lemma_rights_position(current, len, (k - 1) as nat);
        let x = p + k - 1;
        vstd::arithmetic::div_mod::lemma_add_mod_noop_right(1, x, m as int);
        let q = x % (m as int);
        assert(0 <= q < m);
        if q + 1 < m {
            vstd::arithmetic::div_mod::lemma_small_mod((q + 1) as nat, m as nat);
        } else {
            assert((q + 1) % (m as int) == 0) by {
                vstd::arithmetic::div_mod::lemma_mod_add_multiples_vanish(0, m as int);
            }
        }
    }
}

/// The pages form a ring: one move to the right per page, the global one included, comes back
/// to the page the menu started on.
pub proof fn lemma_full_round(current: Index, len: nat)
    requires
        index_fits(current, len),
        len < usize::MAX,
    ensures
        rights(current, len, len + 1) == current,
{
    lemma_rights_position(current, len, len + 1);
    let p = page_position(current, len);
    vstd::arithmetic::div_mod::lemma_mod_add_multiples_vanish(p, (len + 1) as int);
    vstd::arithmetic::div_mod::lemma_small_mod(p as nat, (len + 1) as nat);
}

/// In the help menu, Left undoes Right and Right undoes Left, and as many Rights as there are
/// pages (the global one included) bring back the page shown: `Help::handle_local_action` moves
/// by `page_left` and `page_right` over the menu's component pages.
pub proof fn lemma_help_moves(h: Help)
    requires
        h.wf(),
    ensures
        page_left(page_right(h.current, h.table@.len()), h.table@.len()) == h.current,
        page_right(page_left(h.current, h.table@.len()), h.table@.len()) == h.current,
        rights(h.current, h.table@.len(), h.table@.len() + 1) == h.current,
{
    lemma_left_right_inverse(h.current, h.table@.len());
    lemma_full_round(h.current, h.table@.len());
}

} // verus!
