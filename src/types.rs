//! The registry's entities and the mathematical values they stand for.
use vstd::prelude::*;
use crate::tree::{XmlDocument, string_option_view};
use crate::xml;
use crate::xml::{cs_spec, cv_spec, metadata_spec, exchange_group_spec, package_spec};

verus! {

/// A coded simple value: a code and its display name.
pub struct CsView {
    pub v: Seq<char>,
    pub dn: Seq<char>,
}

/// A coded value: a code, the object identifier of its code system, and its display name.
pub struct CvView {
    pub v: Seq<char>,
    pub s: Seq<char>,
    pub dn: Seq<char>,
}

/// The envelope of an entry: its id, its timestamp and its status.
pub struct MetadataView {
    pub id: Seq<char>,
    pub time: Seq<char>,
    pub status: CsView,
}

pub struct ExchangeGroupView {
    pub id: Seq<char>,
    pub valid_from: Option<Seq<char>>,
    pub valid_to: Option<Seq<char>>,
}

pub struct PackageView {
    pub metadata: MetadataView,
    pub atc: CvView,
    pub name: Seq<char>,
    pub group: CsView,
    pub id: Seq<char>,
    pub itemnum: Seq<char>,
    pub ean: Seq<char>,
    pub exchange_group: Option<ExchangeGroupView>,
}

pub struct SubstanceView {
    pub name: Seq<char>,
    pub atc: CvView,
}

pub struct InteractionView {
    pub metadata: MetadataView,
    pub id: Seq<char>,
    pub relevance: CsView,
    pub consequence: Seq<char>,
    pub mechanism: Seq<char>,
    pub basis: CsView,
    pub handling: Seq<char>,
    pub substances: Seq<SubstanceView>,
}

pub open spec fn package_views(ps: Seq<Package>) -> Seq<PackageView> {
    ps.map_values(|p: Package| p@)
}

pub open spec fn substance_views(ss: Seq<Substance>) -> Seq<SubstanceView> {
    ss.map_values(|s: Substance| s@)
}

pub open spec fn interaction_views(is: Seq<Interaction>) -> Seq<InteractionView> {
    is.map_values(|i: Interaction| i@)
}

fn clone_opt_string(o: &Option<String>) -> (r: Option<String>)
    ensures
        string_option_view(r) == string_option_view(*o),
{
    match o {
        Some(s) => Some(s.clone()),
        None => None,
    }
}

/// The time at which the registry export was retrieved (`HentetDato`), as written there.
#[derive(Debug)]
pub struct LastUpdate {
    update: String,
}

impl View for LastUpdate {
    type V = Seq<char>;

    closed spec fn view(&self) -> Seq<char> {
        self.update@
    }
}

impl LastUpdate {
    pub fn new(date: &str) -> (r: Self)
        ensures
            r@ == date@,
    {
        LastUpdate { update: date.to_owned() }
    }

    pub fn date(&self) -> (r: &String)
        ensures
            r@ == self@,
    {
        &self.update
    }
}

/// The substitution group of a package: packages that share its id may replace one
/// another. The id is never empty.
#[derive(Debug)]
pub struct ExchangeGroup {
    id: String,
    valid_from: Option<String>,
    valid_to: Option<String>,
}

impl View for ExchangeGroup {
    type V = ExchangeGroupView;

    closed spec fn view(&self) -> ExchangeGroupView {
        ExchangeGroupView {
            id: self.id@,
            valid_from: string_option_view(self.valid_from),
            valid_to: string_option_view(self.valid_to),
        }
    }
}

impl ExchangeGroup {
    #[verifier::type_invariant]
    spec fn inv(&self) -> bool {
        self.id@.len() > 0
    }

    /// The group of the exchange-group child (`PakningByttegruppe`) of `node`, if any.
    pub fn new(doc: &XmlDocument, node: usize) -> (r: Option<Self>)
        ensures
            match r {
                Some(g) => exchange_group_spec(doc@, node) == Some(g@),
                None => exchange_group_spec(doc@, node) is None,
            },
    {
        xml::exchange_group(doc, node)
    }

    /// A group with the given id; none when the id is empty.
    pub fn from(id: String, valid_from: Option<String>, valid_to: Option<String>) -> (r: Option<
        Self,
    >)
        ensures
            id@.len() == 0 ==> r is None,
            id@.len() > 0 ==> r is Some && r->Some_0@ == (ExchangeGroupView {
                id: id@,
                valid_from: string_option_view(valid_from),
                valid_to: string_option_view(valid_to),
            }),
    {
        if id.as_str().is_empty() {
            None
        } else {
            Some(ExchangeGroup { id, valid_from, valid_to })
        }
    }

    pub fn id(self) -> (r: String)
        ensures
            r@ == self@.id,
            r@.len() > 0,
    {
        proof {
            use_type_invariant(&self);
        }
        self.id
    }
}

impl Clone for ExchangeGroup {
    fn clone(&self) -> (r: Self)
        ensures
            r@ == self@,
    {
        proof {
            use_type_invariant(self);
        }
        ExchangeGroup {
            id: self.id.clone(),
            valid_from: clone_opt_string(&self.valid_from),
            valid_to: clone_opt_string(&self.valid_to),
        }
    }
}

/// Coded simple value: a code (`V`) and its display name (`DN`).
#[derive(Debug)]
pub struct Cs {
    v: String,
    dn: String,
}

impl View for Cs {
    type V = CsView;

    closed spec fn view(&self) -> CsView {
        CsView { v: self.v@, dn: self.dn@ }
    }
}

impl Cs {
    /// The coded simple value held by the first child of `node` named `tag`.
    pub fn new(doc: &XmlDocument, node: usize, tag: &str) -> (r: Self)
        ensures
            r@ == cs_spec(doc@, node, tag@),
    {
        let (v, dn) = xml::cs(doc, node, tag);
        Cs { v, dn }
    }

    pub fn v(&self) -> (r: &String)
        ensures
            r@ == self@.v,
    {
        &self.v
    }

    pub fn dn(&self) -> (r: &String)
        ensures
            r@ == self@.dn,
    {
        &self.dn
    }
}

impl Clone for Cs {
    fn clone(&self) -> (r: Self)
        ensures
            r@ == self@,
    {
        Cs { v: self.v.clone(), dn: self.dn.clone() }
    }
}

/// Coded value: a code (`V`), the object identifier of its code system (`S`), and its
/// display name (`DN`).
#[derive(Debug)]
pub struct Cv {
    v: String,
    s: String,
    dn: String,
}

impl View for Cv {
    type V = CvView;

    closed spec fn view(&self) -> CvView {
        CvView { v: self.v@, s: self.s@, dn: self.dn@ }
    }
}

impl Cv {
    /// The coded value held by the first child of `node` named `tag`.
    pub fn new(doc: &XmlDocument, node: usize, tag: &str) -> (r: Self)
        ensures
            r@ == cv_spec(doc@, node, tag@),
    {
        let (v, s, dn) = xml::cv(doc, node, tag);
        Cv { v, s, dn }
    }

    pub fn v(&self) -> (r: &String)
        ensures
            r@ == self@.v,
    {
        &self.v
    }

    pub fn s(&self) -> (r: &String)
        ensures
            r@ == self@.s,
    {
        &self.s
    }

    pub fn dn(&self) -> (r: &String)
        ensures
            r@ == self@.dn,
    {
        &self.dn
    }
}

impl Clone for Cv {
    fn clone(&self) -> (r: Self)
        ensures
            r@ == self@,
    {
        Cv { v: self.v.clone(), s: self.s.clone(), dn: self.dn.clone() }
    }
}

/// The envelope of a registry entry.
#[derive(Debug)]
pub struct Metadata {
    id: String,
    time: String,
    status: Cs,
}

impl View for Metadata {
    type V = MetadataView;

    closed spec fn view(&self) -> MetadataView {
        MetadataView { id: self.id@, time: self.time@, status: self.status@ }
    }
}

impl Metadata {
    /// The envelope read from the entry `node` itself: `Id`, `Tidspunkt` and `Status`.
    pub fn new(doc: &XmlDocument, node: usize) -> (r: Self)
        ensures
            r@ == metadata_spec(doc@, node),
    {
        let (id, time) = xml::metadata(doc, node);
        let status = Cs::new(doc, node, "Status");
        Metadata { id, time, status }
    }

    pub fn id(&self) -> (r: &String)
        ensures
            r@ == self@.id,
    {
        &self.id
    }

    pub fn time(&self) -> (r: &String)
        ensures
            r@ == self@.time,
    {
        &self.time
    }

    pub fn status(&self) -> (r: &Cs)
        ensures
            r@ == self@.status,
    {
        &self.status
    }
}

impl Clone for Metadata {
    fn clone(&self) -> (r: Self)
        ensures
            r@ == self@,
    {
        Metadata { id: self.id.clone(), time: self.time.clone(), status: self.status.clone() }
    }
}

/// A drug package (`Legemiddelpakning`).
#[derive(Debug)]
pub struct Package {
    metadata: Metadata,
    atc: Cv,
    name: String,
    group: Cs,
    id: String,
    itemnum: String,
    ean: String,
    exchange_group: Option<ExchangeGroup>,
}

impl View for Package {
    type V = PackageView;

    closed spec fn view(&self) -> PackageView {
        PackageView {
            metadata: self.metadata@,
            atc: self.atc@,
            name: self.name@,
            group: self.group@,
            id: self.id@,
            itemnum: self.itemnum@,
            ean: self.ean@,
            exchange_group: match self.exchange_group {
                Some(g) => Some(g@),
                None => None,
            },
        }
    }
}

impl Package {
    pub fn from(
        metadata: Metadata,
        atc: Cv,
        name: String,
        group: Cs,
        id: String,
        itemnum: String,
        ean: String,
        exchange_group: Option<ExchangeGroup>,
    ) -> (r: Option<Self>)
        ensures
            r is Some,
            r->Some_0@ == (PackageView {
                metadata: metadata@,
                atc: atc@,
                name: name@,
                group: group@,
                id: id@,
                itemnum: itemnum@,
                ean: ean@,
                exchange_group: match exchange_group {
                    Some(g) => Some(g@),
                    None => None,
                },
            }),
    {
        Some(Package { metadata, atc, name, group, id, itemnum, ean, exchange_group })
    }

    /// The package of the registry entry `node`; none when the entry has no
    /// `Legemiddelpakning` child.
    pub fn new(doc: &XmlDocument, node: usize) -> (r: Option<Self>)
        ensures
            match r {
                Some(p) => package_spec(doc@, node) == Some(p@),
                None => package_spec(doc@, node) is None,
            },
    {
        xml::package(doc, node)
    }

    /// The EAN code of the package.
    pub fn ean(&self) -> (r: &String)
        ensures
            r@ == self@.ean,
    {
        &self.ean
    }

    /// The item number (`Varenr`) of the package.
    pub fn itemnum(&self) -> (r: &String)
        ensures
            r@ == self@.itemnum,
    {
        &self.itemnum
    }

    /// The ATC (Anatomical Therapeutic Chemical) code of the package.
    pub fn atc(&self) -> (r: &Cv)
        ensures
            r@ == self@.atc,
    {
        &self.atc
    }

    /// The id of the package record.
    pub fn id(&self) -> (r: &String)
        ensures
            r@ == self@.id,
    {
        &self.id
    }

    /// The display name (`NavnFormStyrke`) of the package.
    pub fn name(&self) -> (r: &String)
        ensures
            r@ == self@.name,
    {
        &self.name
    }

    pub fn metadata(&self) -> (r: &Metadata)
        ensures
            r@ == self@.metadata,
    {
        &self.metadata
    }

    /// The prescription group (`Reseptgruppe`) of the package.
    pub fn group(&self) -> (r: &Cs)
        ensures
            r@ == self@.group,
    {
        &self.group
    }

    /// The id of the package's exchange group; none when it belongs to none.
    pub fn exchange_id(&self) -> (r: Option<&String>)
        ensures
            match r {
                Some(id) => self@.exchange_group is Some && id@ == self@.exchange_group->Some_0.id,
                None => self@.exchange_group is None,
            },
    {
        match &self.exchange_group {
            Some(e) => Some(&e.id),
            None => None,
        }
    }
}

impl Clone for Package {
    fn clone(&self) -> (r: Self)
        ensures
            r@ == self@,
    {
        Package {
            metadata: self.metadata.clone(),
            atc: self.atc.clone(),
            name: self.name.clone(),
            group: self.group.clone(),
            id: self.id.clone(),
            itemnum: self.itemnum.clone(),
            ean: self.ean.clone(),
            exchange_group: match &self.exchange_group {
                Some(g) => Some(g.clone()),
                None => None,
            },
        }
    }
}

/// A substance that takes part in an interaction.
#[derive(Debug)]
pub struct Substance {
    name: String,
    atc: Cv,
}

impl View for Substance {
    type V = SubstanceView;

    closed spec fn view(&self) -> SubstanceView {
        SubstanceView { name: self.name@, atc: self.atc@ }
    }
}

impl Substance {
    pub fn new(name: String, atc: Cv) -> (r: Self)
        ensures
            r@ == (SubstanceView { name: name@, atc: atc@ }),
    {
        Substance { name, atc }
    }

    /// The substance's name.
    pub fn name(&self) -> (r: &String)
        ensures
            r@ == self@.name,
    {
        &self.name
    }

    /// The ATC code the interaction applies to.
    pub fn atc(&self) -> (r: &String)
        ensures
            r@ == self@.atc.v,
    {
        &self.atc.v
    }
}

impl Clone for Substance {
    fn clone(&self) -> (r: Self)
        ensures
            r@ == self@,
    {
        Substance { name: self.name.clone(), atc: self.atc.clone() }
    }
}

/// A documented interaction between two or more substances.
#[derive(Debug)]
pub struct Interaction {
    metadata: Metadata,
    id: String,
    relevance: Cs,
    consequence: String,
    mechanism: String,
    basis: Cs,
    handling: String,
    substances: Vec<Substance>,
}

impl View for Interaction {
    type V = InteractionView;

    closed spec fn view(&self) -> InteractionView {
        InteractionView {
            metadata: self.metadata@,
            id: self.id@,
            relevance: self.relevance@,
            consequence: self.consequence@,
            mechanism: self.mechanism@,
            basis: self.basis@,
            handling: self.handling@,
            substances: substance_views(self.substances@),
        }
    }
}

impl Interaction {
    pub fn new(
        metadata: Metadata,
        id: String,
        relevance: Cs,
        consequence: String,
        mechanism: String,
        basis: Cs,
        handling: String,
        substances: Vec<Substance>,
    ) -> (r: Self)
        ensures
            r@ == (InteractionView {
                metadata: metadata@,
                id: id@,
                relevance: relevance@,
                consequence: consequence@,
                mechanism: mechanism@,
                basis: basis@,
                handling: handling@,
                substances: substance_views(substances@),
            }),
    {
        Interaction { metadata, id, relevance, consequence, mechanism, basis, handling, substances }
    }

    /// The substances the interaction applies to.
    pub fn substances(&self) -> (r: &Vec<Substance>)
        ensures
            substance_views(r@) == self@.substances,
    {
        &self.substances
    }

    /// The interaction's id.
    pub fn id(&self) -> (r: &String)
        ensures
            r@ == self@.id,
    {
        &self.id
    }

    pub fn metadata(&self) -> (r: &Metadata)
        ensures
            r@ == self@.metadata,
    {
        &self.metadata
    }

    /// How relevant the interaction is (`Relevans`).
    pub fn relevance(&self) -> (r: &Cs)
        ensures
            r@ == self@.relevance,
    {
        &self.relevance
    }

    /// The clinical consequence (`KliniskKonsekvens`).
    pub fn consequence(&self) -> (r: &String)
        ensures
            r@ == self@.consequence,
    {
        &self.consequence
    }

    /// The mechanism of the interaction (`Interaksjonsmekanisme`).
    pub fn mechanism(&self) -> (r: &String)
        ensures
            r@ == self@.mechanism,
    {
        &self.mechanism
    }

    /// What the documentation rests on (`Kildegrunnlag`).
    pub fn basis(&self) -> (r: &Cs)
        ensures
            r@ == self@.basis,
    {
        &self.basis
    }

    /// Advice on how to handle the interaction (`Handtering`).
    pub fn handling(&self) -> (r: &String)
        ensures
            r@ == self@.handling,
    {
        &self.handling
    }
}

impl Clone for Interaction {
    fn clone(&self) -> (r: Self)
        ensures
            r@ == self@,
    {
        let mut substances: Vec<Substance> = Vec::new();
        let mut i: usize = 0;
        while i < self.substances.len()
            invariant
                i <= self.substances.len(),
                substance_views(substances@) == substance_views(self.substances@.take(i as int)),
            decreases self.substances.len() - i,
        {
            let s = self.substances[i].clone();
            assert(s@ == self.substances@[i as int]@);
            let ghost before = substances@;
            substances.push(s);
            assert(substance_views(substances@) =~= substance_views(before).push(s@));
            assert(self.substances@.take(i + 1) =~= self.substances@.take(i as int).push(
                self.substances@[i as int],
            ));
            assert(substance_views(substances@) =~= substance_views(
                self.substances@.take(i + 1),
            ));
            i = i + 1;
        }
        assert(self.substances@.take(i as int) =~= self.substances@);
        Interaction {
            metadata: self.metadata.clone(),
            id: self.id.clone(),
            relevance: self.relevance.clone(),
            consequence: self.consequence.clone(),
            mechanism: self.mechanism.clone(),
            basis: self.basis.clone(),
            handling: self.handling.clone(),
            substances,
        }
    }
}

} // verus!
