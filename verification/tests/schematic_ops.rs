use vcli::client::bridge::escape_skill_string;
use vcli::client::schematic_ops::SchematicOps;

fn ops() -> SchematicOps {
    SchematicOps::new()
}

const GUARD: &str = r#"unless(boundp('RB_SCH_CV) && RB_SCH_CV error("RB_SCH_CV is not set - run 'vcli schematic open lib/cell/view' first"))"#;

#[test]
fn create_instance_uses_orient() {
    let s = ops().create_instance("analogLib", "nmos4", "symbol", "M1", (100, 200), "MY");
    assert!(s.contains("\"MY\""), "orient must be in SKILL: {s}");
    assert!(
        s.contains("100") && s.contains("200"),
        "origin must be in SKILL: {s}"
    );
    assert!(s.contains("\"M1\""), "instance name must be quoted: {s}");
}

#[test]
fn create_instance_default_orient() {
    let s = ops().create_instance("lib", "cell", "symbol", "X0", (0, 0), "R0");
    assert!(s.contains("\"R0\""), "{s}");
}

#[test]
fn assign_net_uses_db_create_inst_term() {
    let s = ops().assign_net("M1", "G", "VIN");
    assert!(s.contains("dbCreateInstTerm"), "must create an instTerm on the net: {s}");
    assert!(
        !s.contains("schCreateWire"),
        "must not use schCreateWire: {s}"
    );
    assert!(
        !s.contains("0 0"),
        "hardcoded coordinates must be gone: {s}"
    );
}

#[test]
fn assign_net_escapes_names() {
    let s = ops().assign_net(r#"M"1"#, "D", "VDD");
    assert!(s.contains(r#"M\"1"#), "inst name must be escaped: {s}");
}

#[test]
fn open_cellview_sets_global() {
    let s = ops().open_cellview("myLib", "myCell", "schematic");
    assert!(s.starts_with("RB_SCH_CV ="), "{s}");
    assert!(s.contains("\"myLib\"") && s.contains("\"myCell\""), "{s}");
}

#[test]
fn cv_guard_is_injected_in_write_ops() {
    let s = ops().create_wire(&[(0, 0), (10, 10)], "wire", "VDD");
    assert!(s.contains("boundp('RB_SCH_CV)"), "guard must be present: {s}");
    assert!(s.contains("dbCreateWire"), "{s}");
}

#[test]
fn create_wire_label_contains_guard() {
    let s = ops().create_wire_label("GND", (50, 50));
    assert!(s.contains("boundp('RB_SCH_CV)"), "{s}");
}

#[test]
fn create_pin_respects_pin_type() {
    let s = ops().create_pin("Y", "output", (10, 20));
    assert!(s.contains("\"opin\""), "output pin must use basic/opin: {s}");
    assert!(!s.contains("\"ipin\""), "output pin must not use basic/ipin: {s}");
}

#[test]
fn create_pin_supports_inout() {
    let s = ops().create_pin("VDD", "inout", (10, 20));
    assert!(s.contains("\"iopin\""), "inout pin must use basic/iopin: {s}");
}

#[test]
fn clear_current_cellview_deletes_existing_objects() {
    let s = ops().clear_current_cellview();
    assert!(s.contains("dbDeleteObject"), "{s}");
    assert!(s.contains("cv~>instances"), "{s}");
    assert!(s.contains("cv~>terminals"), "{s}");
}

#[test]
fn save_contains_guard() {
    let s = ops().save();
    assert!(s.contains("boundp('RB_SCH_CV)"), "{s}");
    assert!(s.contains("dbSave"), "{s}");
}

#[test]
fn escape_skill_string_quotes_backslash_and_quote() {
    assert_eq!(escape_skill_string(r#"a\b"c"#), r#"a\\b\"c"#);
    assert_eq!(escape_skill_string("plain"), "plain");
    assert_eq!(escape_skill_string(""), "");
    assert_eq!(escape_skill_string("ü\"ß"), "ü\\\"ß");
}

#[test]
fn whole_texts_of_simple_operations() {
    assert_eq!(ops().check(), format!("let((cv) {GUARD} cv = RB_SCH_CV schCheck(cv))"));
    assert_eq!(ops().save(), format!("let((cv) {GUARD} cv = RB_SCH_CV dbSave(cv))"));
    assert_eq!(
        ops().open_cellview("L", "C", "V"),
        r#"RB_SCH_CV = dbOpenCellViewByType("L" "C" "V" "schematic" "a")"#
    );
}

#[test]
fn create_instance_whole_text_with_negative_coordinates() {
    let s = ops().create_instance("lib", "cell", "symbol", "M1", (-5, i64::MIN), "R90");
    let expected = format!(
        r#"let((cv master inst) {GUARD} cv = RB_SCH_CV master = dbOpenCellViewByType("lib" "cell" "symbol" nil "r") inst = dbCreateInst(cv master "M1" list(-5 -9223372036854775808) "R90" 1) inst)"#
    );
    assert_eq!(s, expected);
}

#[test]
fn create_wire_lists_points() {
    let s = ops().create_wire(&[(0, 0), (10, -20), (i64::MAX, 7)], "wire", "VDD");
    assert!(s.ends_with(
        r#"dbFindLayerByName(cv "wire") list(list(0 0) list(10 -20) list(9223372036854775807 7))))"#
    ));
    let empty = ops().create_wire(&[], "wire", "N");
    assert!(empty.ends_with(r#"list()))"#), "{empty}");
    let one = ops().create_wire(&[(3, 4)], "m1", "N");
    assert!(one.ends_with(r#"list(list(3 4))))"#), "{one}");
}

#[test]
fn create_pin_kinds() {
    let input = ops().create_pin("A", "IN", (1, 2));
    assert!(input.contains(r#""basic" "ipin" "symbol""#) && input.contains(r#""A" "input" "A""#));
    let out = ops().create_pin("A", "Opin", (1, 2));
    assert!(out.contains(r#""basic" "opin" "symbol""#) && out.contains(r#""A" "output" "A""#));
    let io = ops().create_pin("A", "InputOutput", (1, 2));
    assert!(io.contains(r#""basic" "iopin" "symbol""#) && io.contains(r#""inputOutput""#));
    let unknown = ops().create_pin("A", "sideways", (1, 2));
    assert!(unknown.contains(r#""basic" "ipin" "symbol""#));
    assert!(input.contains("stubEnd = list(1 + 0.45 2)"), "{input}");
}

#[test]
fn guarded_operations_carry_the_guard() {
    let o = ops();
    for s in [
        o.create_instance("a", "b", "c", "d", (1, 2), "R0"),
        o.create_wire(&[(1, 2)], "l", "n"),
        o.create_wire_between_terms("i1", "t1", "i2", "t2", "n"),
        o.create_wire_label("n", (1, 2)),
        o.create_pin("n", "in", (1, 2)),
        o.clear_current_cellview(),
        o.check(),
        o.save(),
        o.set_instance_param("i", "p", "v"),
        o.list_instances(),
        o.list_nets(),
        o.list_pins(),
        o.get_instance_params("i"),
    ] {
        assert!(s.contains(GUARD), "{s}");
    }
    assert!(!o.open_cellview("a", "b", "c").contains(GUARD));
    assert!(!o.assign_net("a", "b", "c").contains(GUARD));
}

#[test]
fn read_operations_texts() {
    let s = ops().list_instances();
    assert!(s.contains(r#"sprintf(nil "{\"name\":\"%s\",\"master\":\"%s/%s\",\"x\":%g,\"y\":%g}" inst~>name"#), "{s}");
    let p = ops().get_instance_params(r#"M\1"#);
    assert!(p.contains(r#"strcmp(i~>name "M\\1")==0)"#), "{p}");
    assert!(p.ends_with(r#"strcat(out "}") else "null"))"#), "{p}");
    let n = ops().list_nets();
    assert!(n.contains(r#"sprintf(nil "\"%s\"" net~>name)"#), "{n}");
    let t = ops().list_pins();
    assert!(t.contains(r#"term~>name term~>direction"#), "{t}");
}

#[test]
fn set_instance_param_escapes_value() {
    let s = ops().set_instance_param("M1", "w", r#"1u"x"#);
    assert!(s.ends_with(r#"when(inst dbReplaceProp(inst "w" "string" "1u\"x")))"#), "{s}");
}
