use vcli::capability::{Capability, CapabilitySet};

#[test]
fn capability_domain() {
    assert_eq!(Capability::Schematic.domain(), "schematic");
    assert_eq!(Capability::Maestro.domain(), "maestro");
    assert_eq!(Capability::Window.domain(), "window");
    assert_eq!(Capability::Cell.domain(), "cell");
}

#[test]
fn permits_method() {
    let caps = CapabilitySet::from_caps(&[Capability::Schematic, Capability::Maestro]);
    assert!(caps.permits_method("schematic.place"));
    assert!(caps.permits_method("maestro.open_session"));
    assert!(!caps.permits_method("window.list"));
    assert!(!caps.permits_method("cell.open"));
}

#[test]
fn admin_allows_everything() {
    let caps = CapabilitySet::from_caps(&[Capability::Admin]);
    assert!(caps.permits_method("schematic.place"));
    assert!(caps.permits_method("maestro.run"));
    assert!(caps.permits_method("window.list"));
    assert!(caps.permits_method("cell.open"));
}

#[test]
fn capability_from_str() {
    assert_eq!(
        Capability::from_str("schematic"),
        Some(Capability::Schematic)
    );
    assert_eq!(Capability::from_str("MAESTRO"), Some(Capability::Maestro));
    assert_eq!(Capability::from_str("admin"), Some(Capability::Admin));
    assert_eq!(Capability::from_str("unknown"), None);
}

#[test]
fn capability_from_str_every_name_and_case() {
    assert_eq!(Capability::from_str("Window"), Some(Capability::Window));
    assert_eq!(Capability::from_str("CELL"), Some(Capability::Cell));
    assert_eq!(Capability::from_str("Simulation"), Some(Capability::Simulation));
    assert_eq!(Capability::from_str("TRANSACTION"), Some(Capability::Transaction));
    assert_eq!(Capability::from_str("AdMiN"), Some(Capability::Admin));
    assert_eq!(Capability::from_str(""), None);
    assert_eq!(Capability::from_str(" schematic"), None);
    assert_eq!(Capability::from_str("schematics"), None);
    assert_eq!(Capability::from_str("*"), None);
}

#[test]
fn capability_domain_reads_back() {
    for c in [
        Capability::Schematic,
        Capability::Maestro,
        Capability::Window,
        Capability::Cell,
        Capability::Simulation,
        Capability::Transaction,
    ] {
        assert_eq!(Capability::from_str(c.domain()), Some(c));
    }
    assert_eq!(Capability::Admin.domain(), "*");
    assert_eq!(Capability::Simulation.domain(), "simulation");
    assert_eq!(Capability::Transaction.domain(), "transaction");
}

#[test]
fn capability_is_admin() {
    assert!(Capability::Admin.is_admin());
    assert!(!Capability::Schematic.is_admin());
    assert!(!Capability::Transaction.is_admin());
}

#[test]
fn permits_follows_membership_and_admin() {
    let caps = CapabilitySet::from_caps(&[Capability::Window]);
    assert!(caps.permits(Capability::Window));
    assert!(!caps.permits(Capability::Cell));
    assert!(!caps.allows_raw_skill());
    let admin = CapabilitySet::from_caps(&[Capability::Admin]);
    assert!(admin.permits(Capability::Cell));
    assert!(admin.allows_raw_skill());
}

#[test]
fn permits_method_domain_edges() {
    let admin = CapabilitySet::from_caps(&[Capability::Admin]);
    // Only the schematic, maestro, window and cell domains are gated.
    assert!(!admin.permits_method("simulation.run"));
    assert!(!admin.permits_method("transaction.begin"));
    assert!(!admin.permits_method(""));
    assert!(!admin.permits_method(".schematic"));
    // The domain is what comes before the first dot, or the whole name.
    assert!(admin.permits_method("schematic"));
    assert!(admin.permits_method("cell.a.b"));
    assert!(!admin.permits_method("Schematic.place"));
    let caps = CapabilitySet::from_caps(&[Capability::Simulation, Capability::Transaction]);
    assert!(!caps.permits_method("simulation.run"));
}

#[test]
fn parse_list_reads_pieces() {
    let caps = CapabilitySet::parse_list(" schematic , MAESTRO,bogus,,\tcell\n");
    assert!(caps.permits(Capability::Schematic));
    assert!(caps.permits(Capability::Maestro));
    assert!(caps.permits(Capability::Cell));
    assert!(!caps.permits(Capability::Window));
    assert!(!caps.allows_raw_skill());
    let admin = CapabilitySet::parse_list("admin");
    assert!(admin.allows_raw_skill());
    let none = CapabilitySet::parse_list("");
    assert!(!none.permits(Capability::Schematic));
    let unicode_space = CapabilitySet::parse_list("\u{3000}window\u{a0}");
    assert!(unicode_space.permits(Capability::Window));
}

#[test]
fn all_but_admin_is_the_default() {
    let caps = CapabilitySet::all_but_admin();
    for c in [
        Capability::Schematic,
        Capability::Maestro,
        Capability::Window,
        Capability::Cell,
        Capability::Simulation,
        Capability::Transaction,
    ] {
        assert!(caps.permits(c));
    }
    assert!(!caps.allows_raw_skill());
    assert!(caps.permits_method("cell.open"));
}

#[test]
fn insert_and_empty_set() {
    let mut caps = CapabilitySet::new();
    assert!(!caps.permits(Capability::Cell));
    caps.insert(Capability::Cell);
    caps.insert(Capability::Cell);
    assert!(caps.permits(Capability::Cell));
    assert!(caps.permits_method("cell.close"));
}
