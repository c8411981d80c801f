//! Selector matching against a node's ancestor name chain, and the cascade
//! ordering of matched declarations.
//!
//! A `SelectCtx` owns the registered stylesheets in append order, each tagged
//! with its origin. Selecting the style of one node produces the ordered
//! sequence of declarations of every rule whose selector matches the node:
//! user-agent declarations first, then user, then author, and within one
//! origin in stylesheet and source order, so that a later declaration for the
//! same property wins.
//!
//! The node itself is reached only through the `SelectHandler` adapter, which
//! a caller implements for its own tree type; matching consumes nothing but
//! the names it reports.

use vstd::prelude::*;
use vstd::string::StrSliceExecFns;
use crate::parse::bytes_eq;
use crate::stylesheet::{
    Declaration, Rule, SelectorPart, SpecDeclaration, SpecRule, SpecSelectorPart, Stylesheet,
    Combinator, clone_raw_value,
};
use crate::types::{origin_rank, spec_origin_rank, Origin};

verus! {

/// The capability interface to one caller-supplied document tree. All four
/// operations must be pure, cheap, and consistent with one another:
/// `node_is_root(n)` exactly when `parent_node(n)` is `None`, and
/// `named_parent_node(n, name)` the nearest ancestor named `name`. The
/// matching engine only borrows the handler for the duration of one
/// `select_style` call.
pub trait SelectHandler<N> {
    /// The element name used by selector matching.
    fn node_name(&self, node: &N) -> String;

    /// The immediate ancestor, or `None` at the document root.
    fn parent_node(&self, node: &N) -> Option<N>;

    /// The nearest ancestor whose name equals `name`, or `None`.
    fn named_parent_node(&self, node: &N, name: &str) -> Option<N>;

    /// Whether the node is the document root.
    fn node_is_root(&self, node: &N) -> bool;
}

/// Whether the selector prefix `sel` matches when its last part is required
/// to match the chain entry at `pos`. `chain[0]` is the node itself, each
/// later entry the name of the next ancestor up.
pub open spec fn spec_matches_at(
    sel: Seq<SpecSelectorPart>,
    chain: Seq<Seq<u8>>,
    pos: int,
) -> bool
    decreases sel.len(), chain.len() - pos, 0int,
{
    if sel.len() == 0 || pos < 0 || pos >= chain.len() {
        false
    } else if sel.last().name != chain[pos] {
        false
    } else if sel.len() == 1 {
        true
    } else {
        match sel.last().combinator {
            Combinator::Child => spec_matches_at(sel.drop_last(), chain, pos + 1),
            Combinator::Descendant => spec_matches_above(sel.drop_last(), chain, pos + 1),
        }
    }
}

/// Whether `sel` matches at `q` or at any position above `q`.
pub open spec fn spec_matches_above(
    sel: Seq<SpecSelectorPart>,
    chain: Seq<Seq<u8>>,
    q: int,
) -> bool
    decreases sel.len(), chain.len() - q, 1int,
{
    if q < 0 || q >= chain.len() {
        false
    } else {
        spec_matches_at(sel, chain, q) || spec_matches_above(sel, chain, q + 1)
    }
}

/// Whether a whole selector matches the node whose ancestor names are `chain`.
pub open spec fn spec_selector_matches(sel: Seq<SpecSelectorPart>, chain: Seq<Seq<u8>>) -> bool {
    spec_matches_at(sel, chain, 0)
}

/// Selector scoping of the child combinator: a two-part selector
/// `parent > child` matches a node exactly when the node itself is named
/// `child` and its immediate parent is named `parent` — never when the
/// immediate parent is named anything else.
pub proof fn lemma_child_combinator_scoping(
    parent_name: Seq<u8>,
    child_name: Seq<u8>,
    chain: Seq<Seq<u8>>,
)
    ensures
        spec_selector_matches(
            seq![
                SpecSelectorPart { combinator: Combinator::Descendant, name: parent_name },
                SpecSelectorPart { combinator: Combinator::Child, name: child_name },
            ],
            chain,
        ) <==> (chain.len() >= 2 && chain[0] == child_name && chain[1] == parent_name),
{
    let first = SpecSelectorPart { combinator: Combinator::Descendant, name: parent_name };
    let last = SpecSelectorPart { combinator: Combinator::Child, name: child_name };
    let sel = seq![first, last];
    assert(sel.last() == last);
    assert(sel.drop_last() =~= seq![first]);
    assert(seq![first].last() == first);
    if chain.len() >= 2 && chain[0] == child_name && chain[1] == parent_name {
        assert(spec_matches_at(seq![first], chain, 1));
        assert(spec_matches_at(sel, chain, 0));
    }
    if spec_matches_at(sel, chain, 0) {
        assert(chain.len() >= 1 && chain[0] == child_name);
        assert(spec_matches_at(seq![first], chain, 1));
        assert(chain.len() >= 2 && chain[1] == parent_name);
    }
}

fn matches_at(sel: &Vec<SelectorPart>, n: usize, chain: &Vec<Vec<u8>>, pos: usize) -> (r: bool)
    requires
        n <= sel@.len(),
    ensures
        r == spec_matches_at(sel.deep_view().take(n as int), chain.deep_view(), pos as int),
    decreases n, chain@.len() - pos, 0int,
{
    let ghost prefix = sel.deep_view().take(n as int);
    if n == 0 || pos >= chain.len() {
        false
    } else if !bytes_eq(&sel[n - 1].name, &chain[pos]) {
        assert(prefix.last() == sel.deep_view()[n - 1]);
        assert(chain.deep_view()[pos as int] =~= chain@[pos as int]@);
        false
    } else if n == 1 {
        assert(prefix.last() == sel.deep_view()[n - 1]);
        assert(chain.deep_view()[pos as int] =~= chain@[pos as int]@);
        true
    } else {
        assert(prefix.last() == sel.deep_view()[n - 1]);
        assert(chain.deep_view()[pos as int] =~= chain@[pos as int]@);
        assert(prefix.drop_last() =~= sel.deep_view().take(n as int - 1));
        match sel[n - 1].combinator {
            Combinator::Child => matches_at(sel, n - 1, chain, pos + 1),
            Combinator::Descendant => matches_above(sel, n - 1, chain, pos + 1),
        }
    }
}

fn matches_above(sel: &Vec<SelectorPart>, n: usize, chain: &Vec<Vec<u8>>, q: usize) -> (r: bool)
    requires
        n <= sel@.len(),
    ensures
        r == spec_matches_above(sel.deep_view().take(n as int), chain.deep_view(), q as int),
    decreases n, chain@.len() - q, 1int,
{
    if q >= chain.len() {
        false
    } else if matches_at(sel, n, chain, q) {
        true
    } else {
        matches_above(sel, n, chain, q + 1)
    }
}

/// Whether a rule's selector applies to the node with ancestor chain `chain`.
pub fn selector_matches(sel: &Vec<SelectorPart>, chain: &Vec<Vec<u8>>) -> (r: bool)
    ensures
        r == spec_selector_matches(sel.deep_view(), chain.deep_view()),
{
    let r = matches_at(sel, sel.len(), chain, 0);
    proof {
        assert(sel.deep_view().take(sel@.len() as int) =~= sel.deep_view());
    }
    r
}

/// The declarations the rules contribute for `chain`, in rule order:
/// a rule contributes its declaration block exactly when its selector matches.
pub open spec fn spec_rules_decls(rules: Seq<SpecRule>, chain: Seq<Seq<u8>>) -> Seq<
    SpecDeclaration,
>
    decreases rules.len(),
{
    if rules.len() == 0 {
        Seq::empty()
    } else {
        spec_rules_decls(rules.drop_last(), chain) + (if spec_selector_matches(
            rules.last().selector,
            chain,
        ) {
            rules.last().declarations
        } else {
            Seq::empty()
        })
    }
}

/// One registered stylesheet with its origin tag.
pub struct SheetEntry {
    pub sheet: Stylesheet,
    pub origin: Origin,
}

/// The mathematical shape of a registry entry.
pub struct SpecSheetEntry {
    pub rules: Seq<SpecRule>,
    pub origin: Origin,
}

impl View for SheetEntry {
    type V = SpecSheetEntry;

    open spec fn view(&self) -> SpecSheetEntry {
        SpecSheetEntry { rules: self.sheet@, origin: self.origin }
    }
}

impl DeepView for SheetEntry {
    type V = SpecSheetEntry;

    open spec fn deep_view(&self) -> SpecSheetEntry {
        self.view()
    }
}

/// The declarations the entries of one origin rank contribute, in append
/// order.
pub open spec fn spec_entries_decls(
    entries: Seq<SpecSheetEntry>,
    rank: int,
    chain: Seq<Seq<u8>>,
) -> Seq<SpecDeclaration>
    decreases entries.len(),
{
    if entries.len() == 0 {
        Seq::empty()
    } else {
        spec_entries_decls(entries.drop_last(), rank, chain) + (if spec_origin_rank(
            entries.last().origin,
        ) == rank {
            spec_rules_decls(entries.last().rules, chain)
        } else {
            Seq::empty()
        })
    }
}

/// Every declaration matched for `chain`, in cascade order: user-agent
/// origin first, then user, then author; within an origin in append and
/// source order. Later declarations override earlier ones for the same
/// property.
pub open spec fn spec_select(entries: Seq<SpecSheetEntry>, chain: Seq<Seq<u8>>) -> Seq<
    SpecDeclaration,
> {
    spec_entries_decls(entries, 0, chain) + spec_entries_decls(entries, 1, chain)
        + spec_entries_decls(entries, 2, chain)
}

/// The raw result of selecting one node's style against one registry
/// snapshot: the matched declarations in cascade order. A value snapshot:
/// sheets appended afterwards do not change it.
pub struct SelectResults {
    pub declarations: Vec<Declaration>,
}

impl View for SelectResults {
    type V = Seq<SpecDeclaration>;

    open spec fn view(&self) -> Seq<SpecDeclaration> {
        self.declarations.deep_view()
    }
}

fn clone_decls(v: &Vec<Declaration>) -> (r: Vec<Declaration>)
    ensures
        r.deep_view() == v.deep_view(),
{
    let mut out: Vec<Declaration> = Vec::new();
    let mut k: usize = 0;
    while k < v.len()
        invariant
            k <= v@.len(),
            out@.len() == k,
            forall|j: int| 0 <= j < k ==> out@[j]@ == v@[j]@,
        decreases v@.len() - k,
    {
        let d = Declaration {
            property: v[k].property,
            value: clone_raw_value(&v[k].value),
        };
        out.push(d);
        k = k + 1;
    }
    proof {
        assert(out.deep_view() =~~= v.deep_view());
    }
    out
}

fn rules_decls(rules: &Vec<Rule>, chain: &Vec<Vec<u8>>) -> (r: Vec<Declaration>)
    ensures
        r.deep_view() == spec_rules_decls(rules.deep_view(), chain.deep_view()),
{
    let mut out: Vec<Declaration> = Vec::new();
    proof {
        assert(out.deep_view() =~~= spec_rules_decls(
            rules.deep_view().take(0),
            chain.deep_view(),
        ));
    }
    let mut i: usize = 0;
    while i < rules.len()
        invariant
            i <= rules@.len(),
            out.deep_view() == spec_rules_decls(rules.deep_view().take(i as int), chain.deep_view()),
        decreases rules@.len() - i,
    {
        let ghost before = out.deep_view();
        if selector_matches(&rules[i].selector, chain) {
            let mut ds = clone_decls(&rules[i].declarations);
            out.append(&mut ds);
        }
        i = i + 1;
        proof {
            let pre = rules.deep_view().take(i as int);
            assert(pre.drop_last() =~= rules.deep_view().take(i as int - 1));
            assert(pre.last() == rules.deep_view()[i as int - 1]);
            assert(out.deep_view() =~~= spec_rules_decls(pre, chain.deep_view()));
        }
    }
    proof {
        assert(rules.deep_view().take(rules@.len() as int) =~= rules.deep_view());
    }
    out
}

fn entries_decls(entries: &Vec<SheetEntry>, rank: usize, chain: &Vec<Vec<u8>>) -> (r: Vec<
    Declaration,
>)
    ensures
        r.deep_view() == spec_entries_decls(entries.deep_view(), rank as int, chain.deep_view()),
{
    let mut out: Vec<Declaration> = Vec::new();
    proof {
        assert(out.deep_view() =~~= spec_entries_decls(
            entries.deep_view().take(0),
            rank as int,
            chain.deep_view(),
        ));
    }
    let mut i: usize = 0;
    while i < entries.len()
        invariant
            i <= entries@.len(),
            out.deep_view() == spec_entries_decls(
                entries.deep_view().take(i as int),
                rank as int,
                chain.deep_view(),
            ),
        decreases entries@.len() - i,
    {
        if origin_rank(entries[i].origin) == rank {
            let mut ds = rules_decls(&entries[i].sheet.rules, chain);
            out.append(&mut ds);
        }
        i = i + 1;
        proof {
            let pre = entries.deep_view().take(i as int);
            assert(pre.drop_last() =~= entries.deep_view().take(i as int - 1));
            assert(pre.last() == entries.deep_view()[i as int - 1]);
            assert(out.deep_view() =~~= spec_entries_decls(pre, rank as int, chain.deep_view()));
        }
    }
    proof {
        assert(entries.deep_view().take(entries@.len() as int) =~= entries.deep_view());
    }
    out
}

/// With a single registered stylesheet, selection yields exactly what its
/// rules contribute in source order, whatever the sheet's origin.
pub proof fn lemma_single_sheet_select(entry: SpecSheetEntry, chain: Seq<Seq<u8>>)
    ensures
        spec_select(seq![entry], chain) == spec_rules_decls(entry.rules, chain),
{
    let entries = seq![entry];
    let no_entries = Seq::<SpecSheetEntry>::empty();
    assert(entries.len() == 1);
    assert(entries.drop_last() =~= no_entries);
    assert(entries.last() == entry);
    let r = spec_origin_rank(entry.origin);
    assert(spec_entries_decls(no_entries, 0, chain) == Seq::<SpecDeclaration>::empty());
    assert(spec_entries_decls(no_entries, 1, chain) == Seq::<SpecDeclaration>::empty());
    assert(spec_entries_decls(no_entries, 2, chain) == Seq::<SpecDeclaration>::empty());
    assert(spec_entries_decls(entries, 0, chain) =~= (if r == 0 {
        spec_rules_decls(entry.rules, chain)
    } else {
        Seq::<SpecDeclaration>::empty()
    }));
    assert(spec_entries_decls(entries, 1, chain) =~= (if r == 1 {
        spec_rules_decls(entry.rules, chain)
    } else {
        Seq::<SpecDeclaration>::empty()
    }));
    assert(spec_entries_decls(entries, 2, chain) =~= (if r == 2 {
        spec_rules_decls(entry.rules, chain)
    } else {
        Seq::<SpecDeclaration>::empty()
    }));
    assert(0 <= r <= 2);
    assert(spec_select(entries, chain) =~= spec_rules_decls(entry.rules, chain));
}

/// A single rule contributes its declaration block exactly when its selector
/// matches the node, and nothing otherwise.
pub proof fn lemma_single_rule_decls(rule: SpecRule, chain: Seq<Seq<u8>>)
    ensures
        spec_rules_decls(seq![rule], chain) == (if spec_selector_matches(rule.selector, chain) {
            rule.declarations
        } else {
            Seq::<SpecDeclaration>::empty()
        }),
{
    let rules = seq![rule];
    let no_rules = Seq::<SpecRule>::empty();
    assert(rules.drop_last() =~= no_rules);
    assert(rules.last() == rule);
    assert(spec_rules_decls(no_rules, chain) == Seq::<SpecDeclaration>::empty());
    if spec_selector_matches(rule.selector, chain) {
        assert(spec_rules_decls(rules, chain) =~= rule.declarations);
    } else {
        assert(spec_rules_decls(rules, chain) =~= Seq::<SpecDeclaration>::empty());
    }
}

/// The registry of stylesheets and the engine that matches them: append-only,
/// fully populated before the first selection, read-only afterwards.
pub struct SelectCtx {
    pub entries: Vec<SheetEntry>,
}

impl View for SelectCtx {
    type V = Seq<SpecSheetEntry>;

    open spec fn view(&self) -> Seq<SpecSheetEntry> {
        self.entries.deep_view()
    }
}

impl SelectCtx {
    /// An empty registry; registries are independent of one another.
    pub fn new() -> (r: SelectCtx)
        ensures
            r@ == Seq::<SpecSheetEntry>::empty(),
    {
        let r = SelectCtx { entries: Vec::new() };
        proof {
            assert(r@ =~~= Seq::<SpecSheetEntry>::empty());
        }
        r
    }

    /// Appends a sheet; it takes part in every later selection, after every
    /// sheet appended before it, and never changes results already produced.
    pub fn append_sheet(&mut self, sheet: Stylesheet, origin: Origin)
        ensures
            final(self)@ == old(self)@.push(SpecSheetEntry { rules: sheet@, origin }),
    {
        let ghost before = self.entries.deep_view();
        self.entries.push(SheetEntry { sheet, origin });
        proof {
            assert(self.entries.deep_view() =~~= before.push(
                self.entries@.last()@,
            ));
        }
    }

    /// The matched declarations, in cascade order, for the node whose own
    /// name is `chain[0]` and whose ancestor names follow in order.
    pub fn select_style_for_chain(&self, chain: &Vec<Vec<u8>>) -> (r: SelectResults)
        ensures
            r@ == spec_select(self@, chain.deep_view()),
    {
        let mut out = entries_decls(&self.entries, 0, chain);
        let mut mid = entries_decls(&self.entries, 1, chain);
        let mut high = entries_decls(&self.entries, 2, chain);
        let ghost a = out.deep_view();
        let ghost b = mid.deep_view();
        let ghost c = high.deep_view();
        out.append(&mut mid);
        out.append(&mut high);
        proof {
            assert(out.deep_view() =~~= a + b + c);
        }
        SelectResults { declarations: out }
    }

    /// Selects the style of one node, reading its name and its ancestors'
    /// names through the adapter. The result equals
    /// `select_style_for_chain` applied to the chain of names the adapter
    /// reported, deterministic for a fixed registry and a fixed tree;
    /// the adapter is borrowed only for the duration of the call.
    pub fn select_style<N, H: SelectHandler<N>>(&self, node: &N, handler: &H) -> (r: SelectResults)
        ensures
            exists|chain: Seq<Seq<u8>>| r@ == #[trigger] spec_select(self@, chain),
    {
        let mut chain: Vec<Vec<u8>> = Vec::new();
        let name = handler.node_name(node);
        chain.push(name.as_str().as_bytes_vec());
        let mut cur: Option<N> = handler.parent_node(node);
        // Document trees are acyclic, so the walk ends at the root; the bound
        // only keeps the loop finite against a handler that misbehaves.
        let mut fuel: usize = usize::MAX;
        while fuel > 0
            decreases fuel,
        {
            match cur {
                Some(n) => {
                    let name = handler.node_name(&n);
                    chain.push(name.as_str().as_bytes_vec());
                    cur = handler.parent_node(&n);
                },
                None => {
                    break;
                },
            }
            fuel = fuel - 1;
        }
        let r = self.select_style_for_chain(&chain);
        proof {
            assert(r@ == spec_select(self@, chain.deep_view()));
        }
        r
    }
}

} // verus!
