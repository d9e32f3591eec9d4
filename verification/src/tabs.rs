//! The tab strip: device titles in enumeration order plus the selection
//! cursor, moved cyclically with `next` and `previous`.

use vstd::prelude::*;

verus! {

/// Selection index after one forward step: wraps past the last tab to 0.
pub open spec fn next_index(i: int, n: int) -> int
    recommends
        0 <= i < n,
{
    (i + 1) % n
}

/// Selection index after one backward step: wraps from 0 to the last tab.
pub open spec fn previous_index(i: int, n: int) -> int
    recommends
        0 <= i < n,
{
    if i == 0 {
        n - 1
    } else {
        i - 1
    }
}

/// Selection index after `k` forward steps from `i` among `n` tabs.
pub open spec fn stepped_forward(i: int, n: int, k: nat) -> int
    decreases k,
{
    if k == 0 {
        i
    } else {
        next_index(stepped_forward(i, n, (k - 1) as nat), n)
    }
}

/// Selection index after `k` backward steps from `i` among `n` tabs.
pub open spec fn stepped_backward(i: int, n: int, k: nat) -> int
    decreases k,
{
    if k == 0 {
        i
    } else {
        previous_index(stepped_backward(i, n, (k - 1) as nat), n)
    }
}

/// A forward step lands back inside the tab range.
proof fn lemma_next_index_in_range(i: int, n: int)
    requires
        0 <= i < n,
    ensures
        0 <= next_index(i, n) < n,
{
    vstd::arithmetic::div_mod::lemma_mod_division_less_than_divisor(i + 1, n);
}

/// After `k` forward steps from `i` the selection sits at `(i + k) % n`.
proof fn lemma_stepped_forward_mod(i: int, n: int, k: nat)
    requires
        0 <= i < n,
    ensures
        stepped_forward(i, n, k) == (i + k) % n,
    decreases k,
{
    if k == 0 {
        vstd::arithmetic::div_mod::lemma_small_mod(i as nat, n as nat);
    } else {
        lemma_stepped_forward_mod(i, n, (k - 1) as nat);
        let x = i + k - 1;
        let s = x % n;
        let q = x / n;
        vstd::arithmetic::div_mod::lemma_fundamental_div_mod(x, n);
        vstd::arithmetic::div_mod::lemma_mod_division_less_than_divisor(x, n);
        if s + 1 < n {
            vstd::arithmetic::div_mod::lemma_fundamental_div_mod_converse_mod(x + 1, n, q, s + 1);
            vstd::arithmetic::div_mod::lemma_small_mod((s + 1) as nat, n as nat);
        } else {
            assert((q + 1) * n == q * n + n) by (nonlinear_arith);
            vstd::arithmetic::div_mod::lemma_fundamental_div_mod_converse_mod(x + 1, n, q + 1, 0);
            vstd::arithmetic::div_mod::lemma_mod_self_0(n);
        }
    }
}

/// After `k` backward steps from `i` the selection sits at `(i + k * (n - 1)) % n`.
proof fn lemma_stepped_backward_mod(i: int, n: int, k: nat)
    requires
        0 <= i < n,
    ensures
        stepped_backward(i, n, k) == (i + k * (n - 1)) % n,
    decreases k,
{
    if k == 0 {
        vstd::arithmetic::div_mod::lemma_small_mod(i as nat, n as nat);
    } else {
        lemma_stepped_backward_mod(i, n, (k - 1) as nat);
        let x = i + (k - 1) * (n - 1);
        let s = x % n;
        let q = x / n;
        vstd::arithmetic::div_mod::lemma_fundamental_div_mod(x, n);
        vstd::arithmetic::div_mod::lemma_mod_division_less_than_divisor(x, n);
        assert(i + (k - 1) * (n - 1) + (n - 1) == i + k * (n - 1)) by (nonlinear_arith);
        if s == 0 {
            vstd::arithmetic::div_mod::lemma_fundamental_div_mod_converse_mod(x + n - 1, n, q, n - 1);
        } else {
            assert((q + 1) * n == q * n + n) by (nonlinear_arith);
            vstd::arithmetic::div_mod::lemma_fundamental_div_mod_converse_mod(x + n - 1, n, q + 1, s - 1);
        }
    }
}

/// Law: stepping forward once through every tab returns the selection to
/// where it started.
pub proof fn lemma_next_full_cycle(i: int, n: int)
    requires
        0 <= i < n,
    ensures
        stepped_forward(i, n, n as nat) == i,
{
    lemma_stepped_forward_mod(i, n, n as nat);
    vstd::arithmetic::div_mod::lemma_mod_sub_multiples_vanish(i + n, n);
    vstd::arithmetic::div_mod::lemma_small_mod(i as nat, n as nat);
}

/// Law: stepping backward once through every tab returns the selection to
/// where it started.
pub proof fn lemma_previous_full_cycle(i: int, n: int)
    requires
        0 <= i < n,
    ensures
        stepped_backward(i, n, n as nat) == i,
{
    lemma_stepped_backward_mod(i, n, n as nat);
    assert(i + n * (n - 1) == (n - 1) * n + i) by (nonlinear_arith);
    vstd::arithmetic::div_mod::lemma_mod_multiples_vanish(n - 1, i, n);
    vstd::arithmetic::div_mod::lemma_small_mod(i as nat, n as nat);
}

/// Law: `previous` undoes `next`, and `next` undoes `previous`, from any
/// selected index.
pub proof fn lemma_next_previous_inverse(i: int, n: int)
    requires
        0 <= i < n,
    ensures
        previous_index(next_index(i, n), n) == i,
        next_index(previous_index(i, n), n) == i,
{
    lemma_next_index_in_range(i, n);
    if i + 1 < n {
        vstd::arithmetic::div_mod::lemma_small_mod((i + 1) as nat, n as nat);
    } else {
        vstd::arithmetic::div_mod::lemma_mod_self_0(n);
    }
    if i == 0 {
        vstd::arithmetic::div_mod::lemma_mod_self_0(n);
    } else {
        vstd::arithmetic::div_mod::lemma_small_mod(i as nat, n as nat);
    }
}

/// One tab per device; the selected index wraps modulo the number of tabs.
pub struct TabBar {
    titles: Vec<String>,
    index: usize,
}

impl TabBar {
    /// The tab titles, in the order the devices were enumerated.
    pub closed spec fn titles_view(&self) -> Seq<Seq<char>> {
        self.titles.deep_view()
    }

    /// The currently selected index.
    pub closed spec fn selected(&self) -> int {
        self.index as int
    }

    /// The cursor points at a tab (or at 0 while there are no tabs).
    pub open spec fn wf(&self) -> bool {
        if self.titles_view().len() == 0 {
            self.selected() == 0
        } else {
            self.selected() < self.titles_view().len()
        }
    }

    pub fn new(titles: Vec<String>) -> (r: TabBar)
        ensures
            r.wf(),
            r.titles_view() == titles.deep_view(),
            r.selected() == 0,
    {
        TabBar { titles, index: 0 }
    }

    pub fn index(&self) -> (r: usize)
        ensures
            r == self.selected(),
    {
        self.index
    }

    /// Move the selection one tab to the right, wrapping to the first tab.
    pub fn next(&mut self)
        requires
            old(self).wf(),
            old(self).titles_view().len() > 0,
        ensures
            final(self).wf(),
            final(self).titles_view() == old(self).titles_view(),
            final(self).selected() == next_index(
                old(self).selected(),
                old(self).titles_view().len() as int,
            ),
    {
        let n = self.titles.len();
        self.index = (self.index + 1) % n;
    }

    /// Move the selection one tab to the left, wrapping to the last tab.
    pub fn previous(&mut self)
        requires
            old(self).wf(),
            old(self).titles_view().len() > 0,
        ensures
            final(self).wf(),
            final(self).titles_view() == old(self).titles_view(),
            final(self).selected() == previous_index(
                old(self).selected(),
                old(self).titles_view().len() as int,
            ),
    {
        if self.index > 0 {
            self.index -= 1;
        } else {
            self.index = self.titles.len() - 1;
        }
    }

    pub fn titles(&self) -> (r: &Vec<String>)
        ensures
            r.deep_view() == self.titles_view(),
    {
        &self.titles
    }
}

} // verus!
