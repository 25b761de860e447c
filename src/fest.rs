//! The registry: every package and interaction of one export, and the queries over them.
use vstd::prelude::*;
use crate::tree::{XmlDocument, DocumentModel, parsed_document};
use crate::types::{
    LastUpdate, Package, Interaction, PackageView, InteractionView, package_views,
    interaction_views,
};
use crate::xml;
use crate::xml::{ParseError, packages_spec, interactions_spec, delivery_date_spec};

verus! {

/// A query for interactions named fewer than two packages.
#[derive(Debug, Clone, Copy, PartialEq, Eq, Structural)]
pub enum ContractError {
    TooFewPackages,
}

pub struct RegistryView {
    pub packages: Seq<PackageView>,
    pub interactions: Seq<InteractionView>,
    pub delivery_date: Seq<char>,
}

/// The registry that a parsed export describes.
pub open spec fn registry_spec(d: DocumentModel) -> RegistryView {
    RegistryView {
        packages: packages_spec(d),
        interactions: interactions_spec(d),
        delivery_date: delivery_date_spec(d),
    }
}

/// The first of `ps`, in order, whose item number is `item`.
pub open spec fn lookup(ps: Seq<PackageView>, item: Seq<char>) -> Option<PackageView>
    decreases ps.len(),
{
    if ps.len() == 0 {
        None
    } else if ps[0].itemnum == item {
        Some(ps[0])
    } else {
        lookup(ps.drop_first(), item)
    }
}

pub open spec fn in_group(p: PackageView, id: Seq<char>) -> bool {
    p.exchange_group is Some && p.exchange_group->Some_0.id == id
}

/// The packages of `ps` in the exchange group `id`, in order.
pub open spec fn group_members(ps: Seq<PackageView>, id: Seq<char>) -> Seq<PackageView>
    decreases ps.len(),
{
    if ps.len() == 0 {
        Seq::empty()
    } else {
        let rest = group_members(ps.drop_last(), id);
        if in_group(ps.last(), id) {
            rest.push(ps.last())
        } else {
            rest
        }
    }
}

/// The packages that may replace `p`: none when `p` has no exchange group, else
/// every package of the registry in its group (`p` among them when it is in the registry).
pub open spec fn equivalents(reg: RegistryView, p: PackageView) -> Option<Seq<PackageView>> {
    match p.exchange_group {
        Some(g) => Some(group_members(reg.packages, g.id)),
        None => None,
    }
}

/// `code` is a non-empty ATC code of one of the queried packages.
pub open spec fn queried(ps: Seq<PackageView>, code: Seq<char>) -> bool {
    &&& code.len() > 0
    &&& exists|i: int| 0 <= i < ps.len() && ps[i].atc.v == code
}

/// `code` is a non-empty ATC code of one of the interaction's substances.
pub open spec fn documents(it: InteractionView, code: Seq<char>) -> bool {
    &&& code.len() > 0
    &&& exists|k: int| 0 <= k < it.substances.len() && it.substances[k].atc.v == code
}

/// The interaction documents at least two distinct ATC codes of the queried packages.
pub open spec fn is_relevant(ps: Seq<PackageView>, it: InteractionView) -> bool {
    exists|a: Seq<char>, b: Seq<char>|
        a != b && queried(ps, a) && queried(ps, b) && documents(it, a) && documents(it, b)
}

/// The interactions of `its` that are relevant to the packages `ps`, in order.
pub open spec fn relevant_in(ps: Seq<PackageView>, its: Seq<InteractionView>) -> Seq<
    InteractionView,
>
    decreases its.len(),
{
    if its.len() == 0 {
        Seq::empty()
    } else {
        let rest = relevant_in(ps, its.drop_last());
        if is_relevant(ps, its.last()) {
            rest.push(its.last())
        } else {
            rest
        }
    }
}

pub open spec fn has_id(its: Seq<InteractionView>, id: Seq<char>) -> bool {
    exists|j: int| 0 <= j < its.len() && its[j].id == id
}

/// `its` without the interactions whose id an earlier one already has.
pub open spec fn first_by_id(its: Seq<InteractionView>) -> Seq<InteractionView>
    decreases its.len(),
{
    if its.len() == 0 {
        Seq::empty()
    } else {
        let rest = first_by_id(its.drop_last());
        if has_id(its.drop_last(), its.last().id) {
            rest
        } else {
            rest.push(its.last())
        }
    }
}

/// The documented interactions among the packages `ps`: the relevant interactions of
/// the registry in registry order, one per id; none when there is none.
pub open spec fn interactions_among(reg: RegistryView, ps: Seq<PackageView>) -> Option<
    Seq<InteractionView>,
> {
    let found = first_by_id(relevant_in(ps, reg.interactions));
    if found.len() == 0 {
        None
    } else {
        Some(found)
    }
}

pub open spec fn package_ref_views(ps: Seq<&Package>) -> Seq<PackageView> {
    ps.map_values(|p: &Package| p@)
}

/// Keeping the first interaction of each id keeps every id.
proof fn lemma_first_by_id_ids(its: Seq<InteractionView>, id: Seq<char>)
    ensures
        has_id(first_by_id(its), id) <==> has_id(its, id),
    decreases its.len(),
{
    if its.len() > 0 {
        let init = its.drop_last();
        lemma_first_by_id_ids(init, id);
        let rest = first_by_id(init);
        if has_id(first_by_id(its), id) {
            let j = choose|j: int| 0 <= j < first_by_id(its).len() && first_by_id(its)[j].id == id;
            if j < rest.len() {
                assert(rest[j] == first_by_id(its)[j]);
                let k = choose|k: int| 0 <= k < init.len() && init[k].id == id;
                assert(its[k] == init[k]);
            } else {
                assert(its[its.len() - 1].id == id);
            }
        }
        if has_id(its, id) {
            let k = choose|k: int| 0 <= k < its.len() && its[k].id == id;
            if k < init.len() {
                assert(init[k] == its[k]);
                let j = choose|j: int| 0 <= j < rest.len() && rest[j].id == id;
                assert(first_by_id(its)[j] == rest[j]);
            } else if has_id(init, id) {
                let j = choose|j: int| 0 <= j < rest.len() && rest[j].id == id;
                assert(first_by_id(its)[j] == rest[j]);
            } else {
                assert(first_by_id(its)[rest.len() as int] == its.last());
            }
        }
    }
}

/// Looking up an item number yields the first package, in document order, that has
/// it, and nothing only when no package has it.
pub proof fn lemma_lookup_first(reg: RegistryView, item: Seq<char>, i: int)
    requires
        0 <= i < reg.packages.len(),
    ensures
        reg.packages[i].itemnum == item && (forall|j: int|
            0 <= j < i ==> reg.packages[j].itemnum != item) ==> lookup(reg.packages, item)
            == Some(reg.packages[i]),
        lookup(reg.packages, item) is None <==> forall|j: int|
            0 <= j < reg.packages.len() ==> reg.packages[j].itemnum != item,
{
    lemma_lookup_found(reg.packages, item, i);
    lemma_lookup_none(reg.packages, item);
}

proof fn lemma_lookup_found(ps: Seq<PackageView>, item: Seq<char>, i: int)
    requires
        0 <= i < ps.len(),
    ensures
        ps[i].itemnum == item && (forall|j: int| 0 <= j < i ==> ps[j].itemnum != item) ==> lookup(
            ps,
            item,
        ) == Some(ps[i]),
    decreases i,
{
    if i > 0 && ps[i].itemnum == item && (forall|j: int| 0 <= j < i ==> ps[j].itemnum != item) {
        assert(ps[0].itemnum != item);
        let rest = ps.drop_first();
        assert forall|j: int| 0 <= j < i - 1 implies rest[j].itemnum != item by {
            assert(rest[j] == ps[j + 1]);
        }
        lemma_lookup_found(rest, item, i - 1);
    }
}

proof fn lemma_lookup_none(ps: Seq<PackageView>, item: Seq<char>)
    ensures
        lookup(ps, item) is None <==> forall|j: int| 0 <= j < ps.len() ==> ps[j].itemnum != item,
    decreases ps.len(),
{
    if ps.len() > 0 {
        let rest = ps.drop_first();
        lemma_lookup_none(rest, item);
        if ps[0].itemnum != item {
            assert forall|j: int| 0 <= j < ps.len() && lacks_item(rest, item) implies ps[j].itemnum
                != item by {
                if j > 0 {
                    assert(ps[j] == rest[j - 1]);
                }
            }
            if !lacks_item(rest, item) {
                let k = choose|k: int| 0 <= k < rest.len() && rest[k].itemnum == item;
                assert(ps[k + 1] == rest[k]);
            }
        }
    }
}

/// No package of `ps` has the item number `item`.
spec fn lacks_item(ps: Seq<PackageView>, item: Seq<char>) -> bool {
    forall|j: int| 0 <= j < ps.len() ==> ps[j].itemnum != item
}

/// The packages equivalent to a package of the registry that has an exchange group are
/// exactly the registry's packages in that group, the package itself among them.
pub proof fn lemma_equivalents_include_query(reg: RegistryView, i: int)
    requires
        0 <= i < reg.packages.len(),
        reg.packages[i].exchange_group is Some,
    ensures
        equivalents(reg, reg.packages[i]) is Some,
        equivalents(reg, reg.packages[i])->Some_0.contains(reg.packages[i]),
        forall|p: PackageView|
            equivalents(reg, reg.packages[i])->Some_0.contains(p) <==> reg.packages.contains(p)
                && in_group(p, reg.packages[i].exchange_group->Some_0.id),
{
    let id = reg.packages[i].exchange_group->Some_0.id;
    lemma_group_members(reg.packages, id);
    assert(reg.packages.contains(reg.packages[i]));
}

proof fn lemma_group_members(ps: Seq<PackageView>, id: Seq<char>)
    ensures
        forall|p: PackageView|
            #![trigger group_members(ps, id).contains(p)]
            #![trigger ps.contains(p)]
            group_members(ps, id).contains(p) <==> ps.contains(p) && in_group(p, id),
    decreases ps.len(),
{
    if ps.len() > 0 {
        let init = ps.drop_last();
        lemma_group_members(init, id);
        let m = group_members(ps, id);
        let rest = group_members(init, id);
        assert forall|p: PackageView| m.contains(p) <==> ps.contains(p) && in_group(p, id) by {
            if m.contains(p) {
                let j = choose|j: int| 0 <= j < m.len() && m[j] == p;
                if j < rest.len() {
                    assert(rest[j] == p);
                    assert(rest.contains(p));
                    let k = choose|k: int| 0 <= k < init.len() && init[k] == p;
                    assert(ps[k] == p);
                } else {
                    assert(ps[ps.len() - 1] == p);
                }
            }
            if ps.contains(p) && in_group(p, id) {
                let k = choose|k: int| 0 <= k < ps.len() && ps[k] == p;
                if k < init.len() {
                    assert(init[k] == p);
                    assert(init.contains(p));
                    let j = choose|j: int| 0 <= j < rest.len() && rest[j] == p;
                    assert(m[j] == p);
                } else {
                    assert(m[rest.len() as int] == p);
                }
            }
        }
    }
}

/// Which interactions are found depends only on which ATC codes the queried packages
/// carry; so asking again with the same packages gives the same answer.
pub proof fn lemma_interactions_repeatable(
    reg: RegistryView,
    ps1: Seq<PackageView>,
    ps2: Seq<PackageView>,
)
    requires
        forall|code: Seq<char>| queried(ps1, code) <==> queried(ps2, code),
    ensures
        interactions_among(reg, ps1) == interactions_among(reg, ps2),
{
    lemma_relevant_in_same(reg.interactions, ps1, ps2);
}

proof fn lemma_relevant_in_same(its: Seq<InteractionView>, ps1: Seq<PackageView>, ps2: Seq<PackageView>)
    requires
        forall|code: Seq<char>| queried(ps1, code) <==> queried(ps2, code),
    ensures
        relevant_in(ps1, its) == relevant_in(ps2, its),
    decreases its.len(),
{
    if its.len() > 0 {
        lemma_relevant_in_same(its.drop_last(), ps1, ps2);
        assert(is_relevant(ps1, its.last()) == is_relevant(ps2, its.last()));
    }
}

/// A registry export: all its packages and interactions, and when it was retrieved.
pub struct Fest {
    packages: Vec<Package>,
    interactions: Vec<Interaction>,
    delivery: String,
}

impl View for Fest {
    type V = RegistryView;

    closed spec fn view(&self) -> RegistryView {
        RegistryView {
            packages: package_views(self.packages@),
            interactions: interaction_views(self.interactions@),
            delivery_date: self.delivery@,
        }
    }
}

impl Fest {
    /// Builds the registry from the text of an export. Fails only when the text is
    /// not well-formed XML; otherwise every package, interaction and the delivery
    /// date are read in full.
    pub fn new(content: &str) -> (r: Result<Self, ParseError>)
        ensures
            match parsed_document(content@) {
                Some(d) => r is Ok && r->Ok_0@ == registry_spec(d),
                None => r is Err && r->Err_0 == ParseError::Malformed,
            },
    {
        match xml::document(content) {
            Ok(doc) => Ok(Fest::from_document(&doc)),
            Err(e) => Err(e),
        }
    }

    /// Builds the registry from a parsed export.
    pub fn from_document(doc: &XmlDocument) -> (r: Self)
        ensures
            r@ == registry_spec(doc@),
    {
        let packages = xml::packages(doc);
        let interactions = xml::interactions(doc);
        let delivery = xml::delivery_date(doc);
        Fest { packages, interactions, delivery }
    }

    /// When the export was retrieved (`HentetDato`), as written there.
    pub fn delivery_date(&self) -> (r: LastUpdate)
        ensures
            r@ == self@.delivery_date,
    {
        LastUpdate::new(self.delivery.as_str())
    }

    /// All drug packages, in document order.
    pub fn packages(&self) -> (r: &Vec<Package>)
        ensures
            package_views(r@) == self@.packages,
    {
        &self.packages
    }

    /// All documented interactions, in document order.
    pub fn interactions(&self) -> (r: &Vec<Interaction>)
        ensures
            interaction_views(r@) == self@.interactions,
    {
        &self.interactions
    }

    /// The first package, in document order, whose item number is `itemnum`.
    pub fn find_package(&self, itemnum: &str) -> (r: Option<&Package>)
        ensures
            match r {
                Some(p) => lookup(self@.packages, itemnum@) == Some(p@),
                None => lookup(self@.packages, itemnum@) is None,
            },
    {
        let key = itemnum.to_owned();
        let ghost ps = self@.packages;
        let mut i: usize = 0;
        assert(ps.skip(0) =~= ps);
        while i < self.packages.len()
            invariant
                ps == self@.packages,
                ps.len() == self.packages.len(),
                i <= ps.len(),
                key@ == itemnum@,
                lookup(ps, key@) == lookup(ps.skip(i as int), key@),
            decreases self.packages.len() - i,
        {
            let p = &self.packages[i];
            assert(ps.skip(i as int).drop_first() =~= ps.skip(i + 1));
            assert(ps.skip(i as int)[0] == p@);
            if *p.itemnum() == key {
                return Some(p);
            }
            i = i + 1;
        }
        None
    }

    /// The packages that may replace `package`: none when it has no exchange group,
    /// else every package in its group, in document order, `package` included.
    pub fn find_generic(&self, package: &Package) -> (r: Option<Vec<Package>>)
        ensures
            match r {
                Some(v) => equivalents(self@, package@) == Some(package_views(v@)),
                None => equivalents(self@, package@) is None,
            },
    {
        let id = match package.exchange_id() {
            Some(id) => id,
            None => return None,
        };
        let ghost ps = self@.packages;
        let mut out: Vec<Package> = Vec::new();
        let mut i: usize = 0;
        assert(package_views(out@) =~= group_members(ps.take(0), id@));
        while i < self.packages.len()
            invariant
                ps == self@.packages,
                ps.len() == self.packages.len(),
                i <= ps.len(),
                package_views(out@) == group_members(ps.take(i as int), id@),
            decreases self.packages.len() - i,
        {
            let p = &self.packages[i];
            assert(ps.take(i + 1).drop_last() =~= ps.take(i as int));
            assert(ps.take(i + 1).last() == p@);
            match p.exchange_id() {
                Some(e) => {
                    if *e == *id {
                        let c = p.clone();
                        let ghost before = out@;
                        out.push(c);
                        assert(package_views(out@) =~= package_views(before).push(c@));
                    }
                },
                None => {},
            }
            i = i + 1;
        }
        assert(ps.take(i as int) =~= ps);
        Some(out)
    }

    /// The documented interactions among `packages`: every interaction of the
    /// registry, in registry order and one per id, that names at least two distinct
    /// non-empty ATC codes of the packages; none when there is none. Fewer than two
    /// packages is an error.
    pub fn find_interaction(&self, packages: &Vec<&Package>) -> (r: Result<
        Option<Vec<Interaction>>,
        ContractError,
    >)
        ensures
            packages@.len() < 2 ==> r == Err::<Option<Vec<Interaction>>, ContractError>(
                ContractError::TooFewPackages,
            ),
            packages@.len() >= 2 ==> r is Ok && match r->Ok_0 {
                Some(v) => interactions_among(self@, package_ref_views(packages@)) == Some(
                    interaction_views(v@),
                ),
                None => interactions_among(self@, package_ref_views(packages@)) is None,
            },
    {
        if packages.len() < 2 {
            return Err(ContractError::TooFewPackages);
        }
        let ghost ps = package_ref_views(packages@);
        let codes = query_codes(packages);
        let ghost its = self@.interactions;
        let mut out: Vec<Interaction> = Vec::new();
        let mut i: usize = 0;
        assert(interaction_views(out@) =~= first_by_id(relevant_in(ps, its.take(0))));
        while i < self.interactions.len()
            invariant
                its == self@.interactions,
                its.len() == self.interactions.len(),
                i <= its.len(),
                ps == package_ref_views(packages@),
                distinct_codes(codes@),
                forall|k: int| 0 <= k < codes@.len() ==> codes@[k]@.len() > 0,
                forall|c: Seq<char>| in_codes(codes@, c) <==> queried(ps, c),
                interaction_views(out@) == first_by_id(relevant_in(ps, its.take(i as int))),
            decreases self.interactions.len() - i,
        {
            let it = &self.interactions[i];
            assert(its.take(i + 1).drop_last() =~= its.take(i as int));
            assert(its.take(i + 1).last() == it@);
            let relevant = mentions_two(&codes, it);
            assert(relevant == is_relevant(ps, it@));
            if relevant {
                let ghost prev = relevant_in(ps, its.take(i as int));
                proof {
                    lemma_first_by_id_ids(prev, it@.id);
                    assert(prev.push(it@).drop_last() =~= prev);
                }
                if !has_interaction_id(&out, it.id()) {
                    let c = it.clone();
                    let ghost before = out@;
                    out.push(c);
                    assert(interaction_views(out@) =~= interaction_views(before).push(c@));
                }
            }
            i = i + 1;
        }
        assert(its.take(i as int) =~= its);
        if out.len() == 0 {
            Ok(None)
        } else {
            Ok(Some(out))
        }
    }
}

pub open spec fn in_codes(codes: Seq<String>, c: Seq<char>) -> bool {
    exists|k: int| 0 <= k < codes.len() && codes[k]@ == c
}

pub open spec fn distinct_codes(codes: Seq<String>) -> bool {
    forall|x: int, y: int| 0 <= x < codes.len() && 0 <= y < codes.len() && x != y ==> codes[x]@ != codes[y]@
}

fn contains_code(codes: &Vec<String>, c: &String) -> (r: bool)
    ensures
        r == in_codes(codes@, c@),
{
    let mut k: usize = 0;
    while k < codes.len()
        invariant
            k <= codes.len(),
            forall|j: int| 0 <= j < k ==> codes@[j]@ != c@,
        decreases codes.len() - k,
    {
        if codes[k] == *c {
            return true;
        }
        k = k + 1;
    }
    false
}

/// The distinct non-empty ATC codes of `packages`, in order of first appearance.
fn query_codes(packages: &Vec<&Package>) -> (r: Vec<String>)
    ensures
        distinct_codes(r@),
        forall|k: int| 0 <= k < r@.len() ==> r@[k]@.len() > 0,
        forall|c: Seq<char>| in_codes(r@, c) <==> queried(package_ref_views(packages@), c),
{
    let ghost ps = package_ref_views(packages@);
    let mut codes: Vec<String> = Vec::new();
    let mut i: usize = 0;
    while i < packages.len()
        invariant
            ps == package_ref_views(packages@),
            i <= packages.len(),
            distinct_codes(codes@),
            forall|k: int| 0 <= k < codes@.len() ==> codes@[k]@.len() > 0,
            forall|c: Seq<char>| in_codes(codes@, c) <==> queried(ps.take(i as int), c),
        decreases packages.len() - i,
    {
        let code = packages[i].atc().v();
        assert(ps[i as int].atc.v == code@);
        let ghost old_codes = codes@;
        if !code.as_str().is_empty() && !contains_code(&codes, code) {
            codes.push(code.clone());
            proof {
                assert forall|c: Seq<char>| #[trigger] in_codes(codes@, c) <==> (in_codes(old_codes, c) || c
                    == code@) by {
                    if in_codes(old_codes, c) {
                        let k = choose|k: int| 0 <= k < old_codes.len() && old_codes[k]@ == c;
                        assert(codes@[k] == old_codes[k]);
                    }
                    if c == code@ {
                        assert(codes@[old_codes.len() as int]@ == c);
                    }
                    if in_codes(codes@, c) {
                        let k = choose|k: int| 0 <= k < codes@.len() && codes@[k]@ == c;
                        if k < old_codes.len() {
                            assert(codes@[k] == old_codes[k]);
                        }
                    }
                }
            }
        } else {
            proof {
                if code@.len() > 0 {
                    assert(in_codes(old_codes, code@));
                }
            }
        }
        proof {
            let pre = ps.take(i as int);
            let next = ps.take(i + 1);
            assert(next =~= pre.push(ps[i as int]));
            assert forall|c: Seq<char>| #[trigger] queried(next, c) <==> (queried(pre, c) || (c.len() > 0 && c
                == code@)) by {
                if queried(pre, c) {
                    let j = choose|j: int| 0 <= j < pre.len() && #[trigger] pre[j].atc.v == c;
                    assert(next[j] == pre[j]);
                }
                if c.len() > 0 && c == code@ {
                    assert(next[i as int] == ps[i as int]);
                }
                if queried(next, c) {
                    let j = choose|j: int| 0 <= j < next.len() && #[trigger] next[j].atc.v == c;
                    if j < i {
                        assert(pre[j] == next[j]);
                    }
                }
            }
        }
        assert(forall|c: Seq<char>| in_codes(codes@, c) <==> queried(ps.take(i + 1), c));
        i = i + 1;
    }
    assert(ps.take(i as int) =~= ps);
    codes
}

/// Whether some substance of `it` has the ATC code `code`.
fn names_code(it: &Interaction, code: &String) -> (r: bool)
    ensures
        r == exists|k: int| 0 <= k < it@.substances.len() && it@.substances[k].atc.v == code@,
{
    let subs = it.substances();
    let mut k: usize = 0;
    while k < subs.len()
        invariant
            crate::types::substance_views(subs@) == it@.substances,
            k <= subs.len(),
            forall|j: int| 0 <= j < k ==> it@.substances[j].atc.v != code@,
        decreases subs.len() - k,
    {
        if *subs[k].atc() == *code {
            assert(it@.substances[k as int] == subs@[k as int]@);
            return true;
        }
        k = k + 1;
    }
    false
}

/// Whether `it` documents two distinct codes of `codes`.
fn mentions_two(codes: &Vec<String>, it: &Interaction) -> (r: bool)
    requires
        distinct_codes(codes@),
        forall|k: int| 0 <= k < codes.len() ==> codes@[k]@.len() > 0,
    ensures
        r == exists|a: Seq<char>, b: Seq<char>|
            a != b && in_codes(codes@, a) && in_codes(codes@, b) && documents(it@, a) && documents(
                it@,
                b,
            ),
{
    let mut found: bool = false;
    let ghost mut first: int = 0;
    let mut k: usize = 0;
    while k < codes.len()
        invariant
            distinct_codes(codes@),
            forall|j: int| 0 <= j < codes.len() ==> codes@[j]@.len() > 0,
            k <= codes.len(),
            found ==> 0 <= first < k && documents(it@, codes@[first]@),
            forall|j: int| 0 <= j < k && documents(it@, codes@[j]@) ==> found && j == first,
        decreases codes.len() - k,
    {
        if names_code(it, &codes[k]) {
            if found {
                proof {
                    let a = codes@[first]@;
                    let b = codes@[k as int]@;
                    assert(in_codes(codes@, a) && in_codes(codes@, b) && a != b);
                }
                return true;
            }
            found = true;
            proof {
                first = k as int;
            }
        }
        k = k + 1;
    }
    proof {
        assert forall|a: Seq<char>, b: Seq<char>|
            a != b && in_codes(codes@, a) && in_codes(codes@, b) && documents(it@, a) implies !documents(
            it@,
            b,
        ) by {
            let ka = choose|j: int| 0 <= j < codes.len() && codes@[j]@ == a;
            let kb = choose|j: int| 0 <= j < codes.len() && codes@[j]@ == b;
            assert(ka == first);
        }
    }
    false
}

fn has_interaction_id(out: &Vec<Interaction>, id: &String) -> (r: bool)
    ensures
        r == has_id(interaction_views(out@), id@),
{
    let mut k: usize = 0;
    while k < out.len()
        invariant
            k <= out.len(),
            forall|j: int| 0 <= j < k ==> out@[j]@.id != id@,
        decreases out.len() - k,
    {
        if *out[k].id() == *id {
            assert(interaction_views(out@)[k as int] == out@[k as int]@);
            return true;
        }
        k = k + 1;
    }
    assert forall|j: int| 0 <= j < out.len() implies interaction_views(out@)[j].id != id@ by {
        assert(interaction_views(out@)[j] == out@[j]@);
    }
    false
}

} // verus!
