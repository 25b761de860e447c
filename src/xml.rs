//! Extraction of the registry's entities from a parsed export.
//!
//! Missing data is never an error here: an absent child, attribute or text
//! reads as the empty string, and an entry without its detail node is skipped.
use vstd::prelude::*;
use crate::tree::{
    XmlDocument, DocumentModel, parse_xml, parsed_document, is_tagged, child_of, children_of,
    attribute_of, text_of, string_option_view,
};
use crate::types::{
    Cs, Cv, Metadata, ExchangeGroup, Package, Substance, Interaction, CsView, CvView,
    MetadataView, ExchangeGroupView, PackageView, SubstanceView, InteractionView, package_views,
    substance_views, interaction_views,
};

verus! {

/// The input is not well-formed XML.
#[derive(Debug, Clone, Copy, PartialEq, Eq, Structural)]
pub enum ParseError {
    Malformed,
}

/// The text of the first child of `node` named `tag`; empty when there is none.
pub open spec fn string_value_spec(d: DocumentModel, node: usize, tag: Seq<char>) -> Seq<char> {
    match child_of(d, node, tag) {
        Some(c) => match text_of(d, c) {
            Some(t) => t,
            None => Seq::empty(),
        },
        None => Seq::empty(),
    }
}

pub open spec fn attribute_or_empty(d: DocumentModel, node: usize, name: Seq<char>) -> Seq<char> {
    match attribute_of(d, node, name) {
        Some(v) => v,
        None => Seq::empty(),
    }
}

/// The coded simple value (`V`, `DN`) of the first child of `node` named `tag`.
pub open spec fn cs_spec(d: DocumentModel, node: usize, tag: Seq<char>) -> CsView {
    match child_of(d, node, tag) {
        Some(c) => CsView { v: attribute_or_empty(d, c, "V"@), dn: attribute_or_empty(d, c, "DN"@) },
        None => CsView { v: Seq::empty(), dn: Seq::empty() },
    }
}

/// The coded value (`V`, `S`, `DN`) of the first child of `node` named `tag`.
pub open spec fn cv_spec(d: DocumentModel, node: usize, tag: Seq<char>) -> CvView {
    match child_of(d, node, tag) {
        Some(c) => CvView {
            v: attribute_or_empty(d, c, "V"@),
            s: attribute_or_empty(d, c, "S"@),
            dn: attribute_or_empty(d, c, "DN"@),
        },
        None => CvView { v: Seq::empty(), s: Seq::empty(), dn: Seq::empty() },
    }
}

pub open spec fn metadata_spec(d: DocumentModel, node: usize) -> MetadataView {
    MetadataView {
        id: string_value_spec(d, node, "Id"@),
        time: string_value_spec(d, node, "Tidspunkt"@),
        status: cs_spec(d, node, "Status"@),
    }
}

/// The exchange group named by `PakningByttegruppe`/`RefByttegruppe`; none when
/// that id is absent or empty.
pub open spec fn exchange_group_spec(d: DocumentModel, node: usize) -> Option<ExchangeGroupView> {
    match child_of(d, node, "PakningByttegruppe"@) {
        Some(g) => {
            let id = string_value_spec(d, g, "RefByttegruppe"@);
            if id.len() == 0 {
                None
            } else {
                Some(ExchangeGroupView { id, valid_from: None, valid_to: None })
            }
        },
        None => None,
    }
}

/// The package of the entry `node`: metadata from the entry, the rest from its
/// `Legemiddelpakning` child; none without that child.
pub open spec fn package_spec(d: DocumentModel, node: usize) -> Option<PackageView> {
    match child_of(d, node, "Legemiddelpakning"@) {
        Some(p) => Some(
            PackageView {
                metadata: metadata_spec(d, node),
                atc: cv_spec(d, p, "Atc"@),
                name: string_value_spec(d, p, "NavnFormStyrke"@),
                group: cs_spec(d, p, "Reseptgruppe"@),
                id: string_value_spec(d, p, "Id"@),
                itemnum: string_value_spec(d, p, "Varenr"@),
                ean: string_value_spec(d, p, "Ean"@),
                exchange_group: exchange_group_spec(d, p),
            },
        ),
        None => None,
    }
}

pub open spec fn substance_spec(d: DocumentModel, node: usize) -> SubstanceView {
    SubstanceView { name: string_value_spec(d, node, "Substans"@), atc: cv_spec(d, node, "Atc"@) }
}

/// The substances among `ids` (elements named `Substans`), in order.
pub open spec fn substances_in(d: DocumentModel, ids: Seq<usize>) -> Seq<SubstanceView>
    decreases ids.len(),
{
    if ids.len() == 0 {
        Seq::empty()
    } else {
        let rest = substances_in(d, ids.drop_last());
        if is_tagged(d, ids.last(), "Substans"@) {
            rest.push(substance_spec(d, ids.last()))
        } else {
            rest
        }
    }
}

/// The substances of every substance group among `ids` (elements named
/// `Substansgruppe`), group after group.
pub open spec fn substances_of_groups(d: DocumentModel, ids: Seq<usize>) -> Seq<SubstanceView>
    decreases ids.len(),
{
    if ids.len() == 0 {
        Seq::empty()
    } else {
        let rest = substances_of_groups(d, ids.drop_last());
        if is_tagged(d, ids.last(), "Substansgruppe"@) {
            rest + substances_in(d, children_of(d, ids.last()))
        } else {
            rest
        }
    }
}

/// The interaction of the entry `node`: metadata from the entry, the rest from
/// its `Interaksjon` child; none without that child.
pub open spec fn interaction_spec(d: DocumentModel, node: usize) -> Option<InteractionView> {
    match child_of(d, node, "Interaksjon"@) {
        Some(i) => Some(
            InteractionView {
                metadata: metadata_spec(d, node),
                id: string_value_spec(d, i, "Id"@),
                relevance: cs_spec(d, i, "Relevans"@),
                consequence: string_value_spec(d, i, "KliniskKonsekvens"@),
                mechanism: string_value_spec(d, i, "Interaksjonsmekanisme"@),
                basis: cs_spec(d, i, "Kildegrunnlag"@),
                handling: string_value_spec(d, i, "Handtering"@),
                substances: substances_of_groups(d, children_of(d, i)),
            },
        ),
        None => None,
    }
}

/// The packages of the entries among `ids` (elements named `OppfLegemiddelpakning`
/// that have a package), in order.
pub open spec fn packages_in(d: DocumentModel, ids: Seq<usize>) -> Seq<PackageView>
    decreases ids.len(),
{
    if ids.len() == 0 {
        Seq::empty()
    } else {
        let rest = packages_in(d, ids.drop_last());
        if is_tagged(d, ids.last(), "OppfLegemiddelpakning"@) {
            match package_spec(d, ids.last()) {
                Some(p) => rest.push(p),
                None => rest,
            }
        } else {
            rest
        }
    }
}

/// The interactions of the entries among `ids` (elements named `OppfInteraksjon`
/// that have an interaction), in order.
pub open spec fn interactions_in(d: DocumentModel, ids: Seq<usize>) -> Seq<InteractionView>
    decreases ids.len(),
{
    if ids.len() == 0 {
        Seq::empty()
    } else {
        let rest = interactions_in(d, ids.drop_last());
        if is_tagged(d, ids.last(), "OppfInteraksjon"@) {
            match interaction_spec(d, ids.last()) {
                Some(i) => rest.push(i),
                None => rest,
            }
        } else {
            rest
        }
    }
}

/// An entry without a `Legemiddelpakning` child adds no package, wherever it stands
/// among the entries; it makes nothing else fail either.
pub proof fn lemma_entry_without_detail_skipped(
    d: DocumentModel,
    before: Seq<usize>,
    entry: usize,
    after: Seq<usize>,
)
    requires
        child_of(d, entry, "Legemiddelpakning"@) is None,
    ensures
        packages_in(d, before + seq![entry] + after) == packages_in(d, before + after),
    decreases after.len(),
{
    if after.len() == 0 {
        assert(before + seq![entry] + after =~= before.push(entry));
        assert(before.push(entry).drop_last() =~= before);
        assert(before + after =~= before);
    } else {
        let init = after.drop_last();
        lemma_entry_without_detail_skipped(d, before, entry, init);
        assert((before + seq![entry] + after).drop_last() =~= before + seq![entry] + init);
        assert((before + after).drop_last() =~= before + init);
        assert((before + seq![entry] + after).last() == after.last());
        assert((before + after).last() == after.last());
    }
}

/// All packages of the document: those of the `KatLegemiddelpakning` section.
pub open spec fn packages_spec(d: DocumentModel) -> Seq<PackageView> {
    match child_of(d, d.root, "KatLegemiddelpakning"@) {
        Some(k) => packages_in(d, children_of(d, k)),
        None => Seq::empty(),
    }
}

/// All interactions of the document: those of the `KatInteraksjon` section.
pub open spec fn interactions_spec(d: DocumentModel) -> Seq<InteractionView> {
    match child_of(d, d.root, "KatInteraksjon"@) {
        Some(k) => interactions_in(d, children_of(d, k)),
        None => Seq::empty(),
    }
}

/// The delivery timestamp: the text of the root element's `HentetDato` child.
pub open spec fn delivery_date_spec(d: DocumentModel) -> Seq<char> {
    string_value_spec(d, d.root, "HentetDato"@)
}

/// Parses `content` as XML.
pub fn document(content: &str) -> (r: Result<XmlDocument, ParseError>)
    ensures
        match parsed_document(content@) {
            Some(d) => r is Ok && r->Ok_0@ == d,
            None => r == Err::<XmlDocument, ParseError>(ParseError::Malformed),
        },
{
    match parse_xml(content) {
        Ok(doc) => Ok(doc),
        Err(_) => Err(ParseError::Malformed),
    }
}

/// The text of the first child of `node` named `tag`; empty when there is none.
pub fn string_value(doc: &XmlDocument, node: usize, tag: &str) -> (r: String)
    ensures
        r@ == string_value_spec(doc@, node, tag@),
{
    match doc.child(node, tag) {
        Some(c) => match doc.text(c) {
            Some(t) => t,
            None => String::new(),
        },
        None => String::new(),
    }
}

fn attribute_value(doc: &XmlDocument, node: usize, name: &str) -> (r: String)
    ensures
        r@ == attribute_or_empty(doc@, node, name@),
{
    match doc.attribute(node, name) {
        Some(v) => v,
        None => String::new(),
    }
}

/// Extracts a coded simple value: the `V` and `DN` attributes of the first child
/// of `node` named `tag`.
pub fn cs(doc: &XmlDocument, node: usize, tag: &str) -> (r: (String, String))
    ensures
        r.0@ == cs_spec(doc@, node, tag@).v,
        r.1@ == cs_spec(doc@, node, tag@).dn,
{
    match doc.child(node, tag) {
        Some(c) => (attribute_value(doc, c, "V"), attribute_value(doc, c, "DN")),
        None => (String::new(), String::new()),
    }
}

/// Extracts a coded value: the `V`, `S` and `DN` attributes of the first child of
/// `node` named `tag`.
pub fn cv(doc: &XmlDocument, node: usize, tag: &str) -> (r: (String, String, String))
    ensures
        r.0@ == cv_spec(doc@, node, tag@).v,
        r.1@ == cv_spec(doc@, node, tag@).s,
        r.2@ == cv_spec(doc@, node, tag@).dn,
{
    match doc.child(node, tag) {
        Some(c) => (
            attribute_value(doc, c, "V"),
            attribute_value(doc, c, "S"),
            attribute_value(doc, c, "DN"),
        ),
        None => (String::new(), String::new(), String::new()),
    }
}

/// The delivery timestamp (`HentetDato`) of the document, as written there.
pub fn delivery_date(doc: &XmlDocument) -> (r: String)
    ensures
        r@ == delivery_date_spec(doc@),
{
    string_value(doc, doc.root(), "HentetDato")
}

/// The id (`Id`) and timestamp (`Tidspunkt`) of the entry `node`.
pub fn metadata(doc: &XmlDocument, node: usize) -> (r: (String, String))
    ensures
        r.0@ == metadata_spec(doc@, node).id,
        r.1@ == metadata_spec(doc@, node).time,
{
    let id = string_value(doc, node, "Id");
    let time = string_value(doc, node, "Tidspunkt");
    (id, time)
}

/// The exchange group of the package detail node `node`.
pub fn exchange_group(doc: &XmlDocument, node: usize) -> (r: Option<ExchangeGroup>)
    ensures
        match r {
            Some(g) => exchange_group_spec(doc@, node) == Some(g@),
            None => exchange_group_spec(doc@, node) is None,
        },
{
    match doc.child(node, "PakningByttegruppe") {
        Some(g) => ExchangeGroup::from(string_value(doc, g, "RefByttegruppe"), None, None),
        None => None,
    }
}

/// The package of the entry `node` (an `OppfLegemiddelpakning`).
pub fn package(doc: &XmlDocument, node: usize) -> (r: Option<Package>)
    ensures
        match r {
            Some(p) => package_spec(doc@, node) == Some(p@),
            None => package_spec(doc@, node) is None,
        },
{
    let metadata = Metadata::new(doc, node);
    match doc.child(node, "Legemiddelpakning") {
        Some(p) => Package::from(
            metadata,
            Cv::new(doc, p, "Atc"),
            string_value(doc, p, "NavnFormStyrke"),
            Cs::new(doc, p, "Reseptgruppe"),
            string_value(doc, p, "Id"),
            string_value(doc, p, "Varenr"),
            string_value(doc, p, "Ean"),
            exchange_group(doc, p),
        ),
        None => None,
    }
}

fn substances_of_group(doc: &XmlDocument, group: usize, out: &mut Vec<Substance>)
    ensures
        substance_views(final(out)@) == substance_views(old(out)@) + substances_in(
            doc@,
            children_of(doc@, group),
        ),
{
    let ghost start = substance_views(out@);
    let ghost kids = children_of(doc@, group);
    let n = doc.child_count(group);
    let mut i: usize = 0;
    while i < n
        invariant
            n == kids.len(),
            kids == children_of(doc@, group),
            i <= n,
            substance_views(out@) == start + substances_in(doc@, kids.take(i as int)),
        decreases n - i,
    {
        let c = doc.child_at(group, i);
        assert(kids.take(i + 1).drop_last() =~= kids.take(i as int));
        if doc.has_tag_name(c, "Substans") {
            let s = Substance::new(string_value(doc, c, "Substans"), Cv::new(doc, c, "Atc"));
            assert(s@ == substance_spec(doc@, c));
            assert(substances_in(doc@, kids.take(i + 1)) == substances_in(doc@, kids.take(i as int)).push(s@));
            let ghost before = out@;
            out.push(s);
            assert(substance_views(out@) =~= substance_views(before).push(s@));
            assert(substance_views(out@) =~= start + substances_in(doc@, kids.take(i + 1)));
        }
        i = i + 1;
    }
    assert(kids.take(n as int) =~= kids);
}

/// The substances listed under the `Substansgruppe` children of `node`, group after group.
fn substances(doc: &XmlDocument, node: usize) -> (r: Vec<Substance>)
    ensures
        substance_views(r@) == substances_of_groups(doc@, children_of(doc@, node)),
{
    let ghost kids = children_of(doc@, node);
    let mut out: Vec<Substance> = Vec::new();
    let n = doc.child_count(node);
    let mut i: usize = 0;
    assert(substance_views(out@) =~= Seq::empty());
    while i < n
        invariant
            n == kids.len(),
            kids == children_of(doc@, node),
            i <= n,
            substance_views(out@) == substances_of_groups(doc@, kids.take(i as int)),
        decreases n - i,
    {
        let c = doc.child_at(node, i);
        assert(kids.take(i + 1).drop_last() =~= kids.take(i as int));
        if doc.has_tag_name(c, "Substansgruppe") {
            substances_of_group(doc, c, &mut out);
        }
        i = i + 1;
    }
    assert(kids.take(n as int) =~= kids);
    out
}

/// The interaction of the entry `node` (an `OppfInteraksjon`).
pub fn interaction(doc: &XmlDocument, node: usize) -> (r: Option<Interaction>)
    ensures
        match r {
            Some(i) => interaction_spec(doc@, node) == Some(i@),
            None => interaction_spec(doc@, node) is None,
        },
{
    let metadata = Metadata::new(doc, node);
    match doc.child(node, "Interaksjon") {
        Some(i) => Some(
            Interaction::new(
                metadata,
                string_value(doc, i, "Id"),
                Cs::new(doc, i, "Relevans"),
                string_value(doc, i, "KliniskKonsekvens"),
                string_value(doc, i, "Interaksjonsmekanisme"),
                Cs::new(doc, i, "Kildegrunnlag"),
                string_value(doc, i, "Handtering"),
                substances(doc, i),
            ),
        ),
        None => None,
    }
}

/// All packages of the document (the `OppfLegemiddelpakning` entries of the
/// `KatLegemiddelpakning` section that have a package), in document order.
pub fn packages(doc: &XmlDocument) -> (r: Vec<Package>)
    ensures
        package_views(r@) == packages_spec(doc@),
{
    let mut out: Vec<Package> = Vec::new();
    assert(package_views(out@) =~= Seq::empty());
    match doc.child(doc.root(), "KatLegemiddelpakning") {
        Some(k) => {
            let ghost kids = children_of(doc@, k);
            let n = doc.child_count(k);
            let mut i: usize = 0;
            while i < n
                invariant
                    n == kids.len(),
                    kids == children_of(doc@, k),
                    i <= n,
                    package_views(out@) == packages_in(doc@, kids.take(i as int)),
                decreases n - i,
            {
                let c = doc.child_at(k, i);
                assert(kids.take(i + 1).drop_last() =~= kids.take(i as int));
                if doc.has_tag_name(c, "OppfLegemiddelpakning") {
                    match package(doc, c) {
                        Some(p) => {
                            out.push(p);
                            assert(package_views(out@) =~= packages_in(doc@, kids.take(i + 1)));
                        },
                        None => {},
                    }
                }
                i = i + 1;
            }
            assert(kids.take(n as int) =~= kids);
            out
        },
        None => out,
    }
}

/// All interactions of the document (the `OppfInteraksjon` entries of the
/// `KatInteraksjon` section that have an interaction), in document order.
pub fn interactions(doc: &XmlDocument) -> (r: Vec<Interaction>)
    ensures
        interaction_views(r@) == interactions_spec(doc@),
{
    let mut out: Vec<Interaction> = Vec::new();
    assert(interaction_views(out@) =~= Seq::empty());
    match doc.child(doc.root(), "KatInteraksjon") {
        Some(k) => {
            let ghost kids = children_of(doc@, k);
            let n = doc.child_count(k);
            let mut i: usize = 0;
            while i < n
                invariant
                    n == kids.len(),
                    kids == children_of(doc@, k),
                    i <= n,
                    interaction_views(out@) == interactions_in(doc@, kids.take(i as int)),
                decreases n - i,
            {
                let c = doc.child_at(k, i);
                assert(kids.take(i + 1).drop_last() =~= kids.take(i as int));
                if doc.has_tag_name(c, "OppfInteraksjon") {
                    match interaction(doc, c) {
                        Some(it) => {
                            out.push(it);
                            assert(interaction_views(out@) =~= interactions_in(
                                doc@,
                                kids.take(i + 1),
                            ));
                        },
                        None => {},
                    }
                }
                i = i + 1;
            }
            assert(kids.take(n as int) =~= kids);
            out
        },
        None => out,
    }
}

} // verus!
