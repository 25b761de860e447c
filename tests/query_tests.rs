use festlib::fest::{ContractError, Fest};
use festlib::types::ExchangeGroup;
use festlib::xml::{document, exchange_group, ParseError};

fn package(itemnum: &str, id: &str, atc: Option<&str>, group: Option<&str>) -> String {
    let atc = match atc {
        Some(a) => format!("<Atc V=\"{a}\" S=\"2.16.578.1.12.4.1.1.7180\" DN=\"{a}\"/>"),
        None => String::new(),
    };
    let group = match group {
        Some(g) => format!("<PakningByttegruppe><RefByttegruppe>{g}</RefByttegruppe></PakningByttegruppe>"),
        None => String::new(),
    };
    format!(
        "<OppfLegemiddelpakning><Id>E_{id}</Id><Tidspunkt>T</Tidspunkt>\
         <Legemiddelpakning>{atc}<Id>{id}</Id><Varenr>{itemnum}</Varenr><Ean>E{id}</Ean>{group}\
         </Legemiddelpakning></OppfLegemiddelpakning>"
    )
}

fn interaction(id: &str, atcs: &[&str]) -> String {
    let subs: String = atcs
        .iter()
        .map(|a| format!("<Substans><Substans>S {a}</Substans><Atc V=\"{a}\"/></Substans>"))
        .collect();
    format!(
        "<OppfInteraksjon><Id>E_{id}</Id><Interaksjon><Id>{id}</Id>\
         <Substansgruppe>{subs}</Substansgruppe></Interaksjon></OppfInteraksjon>"
    )
}

fn export(packages: &[String], interactions: &[String]) -> String {
    format!(
        "<FEST><HentetDato>2024-09-09T14:21:28</HentetDato>\
         <KatLegemiddelpakning>{}</KatLegemiddelpakning>\
         <KatInteraksjon>{}</KatInteraksjon></FEST>",
        packages.concat(),
        interactions.concat()
    )
}

#[test]
fn malformed_input_is_rejected() {
    assert!(matches!(Fest::new("<FEST><KatLegemiddelpakning></FEST>"), Err(ParseError::Malformed)));
    assert!(matches!(Fest::new(""), Err(ParseError::Malformed)));
    assert!(matches!(document("<a><b></a>"), Err(ParseError::Malformed)));
}

#[test]
fn well_formed_input_is_read_in_full() {
    let text = export(
        &[package("1", "P1", Some("A01"), None), package("2", "P2", Some("A02"), None)],
        &[interaction("I1", &["A01", "A02"])],
    );
    let fest = Fest::new(&text).unwrap();
    assert_eq!(fest.packages().len(), 2);
    assert_eq!(fest.interactions().len(), 1);
    assert_eq!(fest.interactions()[0].substances().len(), 2);
    assert_eq!(fest.interactions()[0].substances()[1].name(), "S A02");
    assert_eq!(fest.interactions()[0].substances()[1].atc(), "A02");
    assert_eq!(fest.delivery_date().date(), "2024-09-09T14:21:28");
}

#[test]
fn empty_export_has_nothing() {
    let fest = Fest::new("<FEST/>").unwrap();
    assert_eq!(fest.packages().len(), 0);
    assert_eq!(fest.interactions().len(), 0);
    assert_eq!(fest.delivery_date().date(), "");
    assert!(fest.find_package("1").is_none());
}

#[test]
fn lookup_returns_first_of_duplicates() {
    let text = export(
        &[
            package("100", "FIRST", Some("A01"), None),
            package("200", "OTHER", Some("A01"), None),
            package("100", "SECOND", Some("A02"), None),
        ],
        &[],
    );
    let fest = Fest::new(&text).unwrap();
    let first = fest.find_package("100").unwrap();
    assert_eq!(first.id(), "FIRST");
    let again = fest.find_package("100").unwrap();
    assert_eq!(again.id(), "FIRST");
    assert_eq!(fest.find_package("200").unwrap().id(), "OTHER");
    assert!(fest.find_package("300").is_none());
}

#[test]
fn equivalents_are_the_whole_group_in_order() {
    let mut pkgs = Vec::new();
    for i in 0..12 {
        let group = if i % 3 == 1 && i < 15 { "G" } else { "H" };
        let group = if i == 0 { None } else { Some(group) };
        pkgs.push(package(&format!("{i}"), &format!("P{i}"), Some("A01"), group));
    }
    // Members of G: items 1, 4, 7, 10, and the last one added below.
    pkgs.push(package("99", "P99", Some("A01"), Some("G")));
    let fest = Fest::new(&export(&pkgs, &[])).unwrap();
    for item in ["1", "4", "7", "10", "99"] {
        let p = fest.find_package(item).unwrap();
        let group = fest.find_generic(p).unwrap();
        let ids: Vec<&str> = group.iter().map(|g| g.id().as_str()).collect();
        assert_eq!(ids, vec!["P1", "P4", "P7", "P10", "P99"]);
        assert!(group.iter().any(|g| g.itemnum() == item));
    }
    let without = fest.find_package("0").unwrap();
    assert!(without.exchange_id().is_none());
    assert!(fest.find_generic(without).is_none());
}

#[test]
fn one_shared_interaction_is_found() {
    let text = export(
        &[package("1", "P1", Some("N02BE01"), None), package("2", "P2", Some("B01AA03"), None)],
        &[
            interaction("I_OTHER", &["C09AA05", "M01AE01"]),
            interaction("I_BOTH", &["B01AA03", "N02BE01"]),
            interaction("I_ONE", &["B01AA03", "C09AA05"]),
        ],
    );
    let fest = Fest::new(&text).unwrap();
    let p1 = fest.find_package("1").unwrap();
    let p2 = fest.find_package("2").unwrap();
    let found = fest.find_interaction(&vec![p1, p2]).unwrap().unwrap();
    assert_eq!(found.len(), 1);
    assert_eq!(found[0].id(), "I_BOTH");
}

#[test]
fn repeated_queries_agree() {
    let text = export(
        &[package("1", "P1", Some("A"), None), package("2", "P2", Some("B"), None)],
        &[interaction("I1", &["A", "B"]), interaction("I2", &["B", "A", "C"])],
    );
    let fest = Fest::new(&text).unwrap();
    let p1 = fest.find_package("1").unwrap();
    let p2 = fest.find_package("2").unwrap();
    let first = fest.find_interaction(&vec![p1, p2]).unwrap().unwrap();
    let second = fest.find_interaction(&vec![p1, p2]).unwrap().unwrap();
    let swapped = fest.find_interaction(&vec![p2, p1, p2]).unwrap().unwrap();
    let ids = |v: &Vec<festlib::types::Interaction>| v.iter().map(|i| i.id().clone()).collect::<Vec<_>>();
    assert_eq!(ids(&first), vec!["I1", "I2"]);
    assert_eq!(ids(&first), ids(&second));
    assert_eq!(ids(&first), ids(&swapped));
}

#[test]
fn one_documented_code_is_not_enough() {
    let text = export(
        &[package("1", "P1", Some("A"), None), package("2", "P2", Some("Z"), None)],
        &[interaction("I1", &["A", "B"]), interaction("I2", &["A", "C", "A"])],
    );
    let fest = Fest::new(&text).unwrap();
    let p1 = fest.find_package("1").unwrap();
    let p2 = fest.find_package("2").unwrap();
    assert!(fest.find_interaction(&vec![p1, p2]).unwrap().is_none());
}

#[test]
fn same_code_twice_is_not_an_interaction() {
    let text = export(
        &[package("1", "P1", Some("A"), None), package("2", "P2", Some("A"), None)],
        &[interaction("I1", &["A", "A"])],
    );
    let fest = Fest::new(&text).unwrap();
    let p1 = fest.find_package("1").unwrap();
    let p2 = fest.find_package("2").unwrap();
    assert!(fest.find_interaction(&vec![p1, p2]).unwrap().is_none());
}

#[test]
fn packages_without_atc_never_match() {
    let text = export(
        &[package("1", "P1", None, None), package("2", "P2", None, None)],
        &[interaction("I1", &["", ""]), interaction("I2", &["", "A"])],
    );
    let fest = Fest::new(&text).unwrap();
    let p1 = fest.find_package("1").unwrap();
    let p2 = fest.find_package("2").unwrap();
    assert_eq!(p1.atc().v(), "");
    assert!(fest.find_interaction(&vec![p1, p2]).unwrap().is_none());
}

#[test]
fn duplicate_interaction_ids_are_reported_once() {
    let text = export(
        &[package("1", "P1", Some("A"), None), package("2", "P2", Some("B"), None)],
        &[
            interaction("I1", &["A", "B"]),
            interaction("I2", &["A", "B"]),
            interaction("I1", &["B", "A", "C"]),
        ],
    );
    let fest = Fest::new(&text).unwrap();
    let p1 = fest.find_package("1").unwrap();
    let p2 = fest.find_package("2").unwrap();
    let found = fest.find_interaction(&vec![p1, p2]).unwrap().unwrap();
    let ids: Vec<&str> = found.iter().map(|i| i.id().as_str()).collect();
    assert_eq!(ids, vec!["I1", "I2"]);
    assert_eq!(found[0].substances().len(), 2);
}

#[test]
fn a_single_package_is_a_contract_error() {
    let text = export(&[package("1", "P1", Some("A"), None)], &[interaction("I1", &["A", "B"])]);
    let fest = Fest::new(&text).unwrap();
    let p1 = fest.find_package("1").unwrap();
    assert_eq!(fest.find_interaction(&vec![p1]).unwrap_err(), ContractError::TooFewPackages);
    assert_eq!(fest.find_interaction(&vec![]).unwrap_err(), ContractError::TooFewPackages);
}

#[test]
fn delivery_date_is_passed_through() {
    let fest = Fest::new(
        "<FEST><HentetDato>2024-09-09T14:21:28</HentetDato><KatLegemiddelpakning/></FEST>",
    )
    .unwrap();
    assert_eq!(fest.delivery_date().date(), "2024-09-09T14:21:28");
}

#[test]
fn entry_without_detail_is_skipped() {
    let text = export(
        &[
            package("1", "P1", Some("A"), None),
            "<OppfLegemiddelpakning><Id>E_X</Id><Tidspunkt>T</Tidspunkt></OppfLegemiddelpakning>".to_string(),
            package("2", "P2", Some("B"), None),
        ],
        &["<OppfInteraksjon><Id>E_Y</Id></OppfInteraksjon>".to_string()],
    );
    let fest = Fest::new(&text).unwrap();
    assert_eq!(fest.packages().len(), 2);
    assert_eq!(fest.packages()[1].id(), "P2");
    assert_eq!(fest.interactions().len(), 0);
}

#[test]
fn missing_fields_read_as_empty() {
    let text = export(
        &["<OppfLegemiddelpakning><Legemiddelpakning><Varenr>5</Varenr><Atc V=\"A\"/>\
           <Reseptgruppe DN=\"only a name\"/></Legemiddelpakning></OppfLegemiddelpakning>"
            .to_string()],
        &[],
    );
    let fest = Fest::new(&text).unwrap();
    let p = fest.find_package("5").unwrap();
    assert_eq!(p.id(), "");
    assert_eq!(p.ean(), "");
    assert_eq!(p.name(), "");
    assert_eq!(p.atc().v(), "A");
    assert_eq!(p.atc().s(), "");
    assert_eq!(p.atc().dn(), "");
    assert_eq!(p.group().v(), "");
    assert_eq!(p.group().dn(), "only a name");
    assert_eq!(p.metadata().id(), "");
    assert_eq!(p.metadata().status().v(), "");
    assert!(p.exchange_id().is_none());
}

#[test]
fn first_of_repeated_children_counts() {
    let text = export(
        &["<OppfLegemiddelpakning><Legemiddelpakning><Varenr>7</Varenr><Varenr>8</Varenr>\
           <Atc V=\"FIRST\"/><Atc V=\"SECOND\"/></Legemiddelpakning></OppfLegemiddelpakning>"
            .to_string()],
        &[],
    );
    let fest = Fest::new(&text).unwrap();
    assert!(fest.find_package("8").is_none());
    assert_eq!(fest.find_package("7").unwrap().atc().v(), "FIRST");
}

#[test]
fn namespaced_attributes_are_not_codes() {
    let text = export(
        &["<OppfLegemiddelpakning><Legemiddelpakning xmlns:x=\"urn:x\"><Varenr>7</Varenr>\
           <Atc x:V=\"WRONG\" V=\"RIGHT\"/></Legemiddelpakning></OppfLegemiddelpakning>"
            .to_string()],
        &[],
    );
    let fest = Fest::new(&text).unwrap();
    assert_eq!(fest.find_package("7").unwrap().atc().v(), "RIGHT");
}

#[test]
fn empty_exchange_group_is_no_group() {
    let text = export(&[package("1", "P1", Some("A"), Some(""))], &[]);
    let fest = Fest::new(&text).unwrap();
    let p = fest.find_package("1").unwrap();
    assert!(p.exchange_id().is_none());
    assert!(fest.find_generic(p).is_none());

    let doc = document("<L><PakningByttegruppe><RefByttegruppe>G7</RefByttegruppe></PakningByttegruppe></L>").unwrap();
    let group = exchange_group(&doc, doc.root()).unwrap();
    assert_eq!(group.id(), "G7");
    assert!(ExchangeGroup::from(String::new(), None, None).is_none());
    assert_eq!(ExchangeGroup::from("G".to_string(), None, None).unwrap().id(), "G");
}

#[test]
fn substances_come_from_every_group() {
    let text = export(
        &[],
        &["<OppfInteraksjon><Interaksjon><Id>I</Id>\
           <Substansgruppe><Substans><Substans>a</Substans><Atc V=\"A\"/></Substans>\
           <Annet/><Substans><Substans>b</Substans><Atc V=\"B\"/></Substans></Substansgruppe>\
           <Substansgruppe><Substans><Substans>c</Substans><Atc V=\"C\"/></Substans></Substansgruppe>\
           </Interaksjon></OppfInteraksjon>"
            .to_string()],
    );
    let fest = Fest::new(&text).unwrap();
    let subs = fest.interactions()[0].substances();
    let names: Vec<&str> = subs.iter().map(|s| s.name().as_str()).collect();
    assert_eq!(names, vec!["a", "b", "c"]);
}
