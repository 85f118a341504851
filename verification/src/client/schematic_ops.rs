//! SKILL command text for editing the open schematic cellview.
//!
//! Every operation but `open_cellview` and `assign_net` runs under a guard
//! that fails with a helpful message when no cellview has been opened.
use vstd::prelude::*;

use crate::client::bridge::{escape_skill_string, skill_escape};
use crate::text::{
    chars_equal, chars_of, decimal, lemma_lower_idempotent, lower_seq, lowered_range, push_decimal,
};

verus! {

broadcast use vstd::string::group_string_axioms;

/// SKILL global that holds the currently active schematic cellview.
///
/// It is process-wide: concurrent processes that open different cellviews
/// overwrite each other's global, so schematic commands must be run one at a
/// time (or in separate Virtuoso sessions).
pub const SCH_CV_VAR: &'static str = "RB_SCH_CV";

/// The guard: checks that the cellview global is bound and still valid, and
/// errors with a helpful message otherwise.
pub open spec fn guard_text() -> Seq<char> {
    r#"unless(boundp('"#@ + SCH_CV_VAR@ + r#") && "#@ + SCH_CV_VAR@
        + r#" error("RB_SCH_CV is not set - run 'vcli schematic open lib/cell/view' first"))"#@
}

/// An operation run under the guard: `head`, the guard, then `body`.
pub open spec fn guarded(head: Seq<char>, body: Seq<char>) -> Seq<char> {
    head + guard_text() + body
}

/// Whether `needle` occurs in `hay` as a run of consecutive characters.
pub open spec fn contains_text(hay: Seq<char>, needle: Seq<char>) -> bool {
    exists|i: int| 0 <= i && i + needle.len() <= hay.len() && #[trigger] hay.subrange(i, i + needle.len()) == needle
}

/// The SKILL cellview master and terminal direction for a kind of pin, its
/// name compared with ASCII letters lowered; an unknown kind is an input.
pub open spec fn pin_kind(t: Seq<char>) -> (Seq<char>, Seq<char>) {
    let l = lower_seq(t);
    if l == "input"@ || l == "in"@ || l == "ipin"@ {
        ("ipin"@, "input"@)
    } else if l == "output"@ || l == "out"@ || l == "opin"@ {
        ("opin"@, "output"@)
    } else if l == "inout"@ || l == "io"@ || l == "iopin"@ || l == "inputoutput"@ {
        ("iopin"@, "inputOutput"@)
    } else {
        ("ipin"@, "input"@)
    }
}

/// A point as a SKILL list: `list(x y)`.
pub open spec fn point_text(p: (i64, i64)) -> Seq<char> {
    "list("@ + decimal(p.0 as int) + " "@ + decimal(p.1 as int) + ")"@
}

/// The points as SKILL lists, separated by single spaces.
pub open spec fn points_text(ps: Seq<(i64, i64)>) -> Seq<char>
    decreases ps.len(),
{
    if ps.len() == 0 {
        Seq::empty()
    } else if ps.len() == 1 {
        point_text(ps[0])
    } else {
        points_text(ps.drop_last()) + " "@ + point_text(ps.last())
    }
}

/// The SKILL text of `SchematicOps::create_instance`.
pub open spec fn create_instance_text(lib: Seq<char>, cell: Seq<char>, view: Seq<char>, name: Seq<char>, x: int, y: int, orient: Seq<char>) -> Seq<char> {
    guarded(r#"let((cv master inst) "#@, r#" cv = RB_SCH_CV master = dbOpenCellViewByType(""#@ + skill_escape(lib) + r#"" ""#@ + skill_escape(cell) + r#"" ""#@ + skill_escape(view) + r#"" nil "r") inst = dbCreateInst(cv master ""#@ + skill_escape(name) + r#"" list("#@ + decimal(x) + r#" "#@ + decimal(y) + r#") ""#@ + skill_escape(orient) + r#"" 1) inst)"#@)
}

/// The SKILL text of `SchematicOps::create_wire`.
pub open spec fn create_wire_text(points: Seq<(i64, i64)>, layer: Seq<char>, net_name: Seq<char>) -> Seq<char> {
    guarded(r#"let((cv) "#@, r#" cv = RB_SCH_CV dbCreateWire(cv dbMakeNet(cv ""#@ + skill_escape(net_name) + r#"") dbFindLayerByName(cv ""#@ + skill_escape(layer) + r#"") list("#@ + points_text(points) + r#")))"#@)
}

/// The SKILL text of `SchematicOps::create_wire_between_terms`.
pub open spec fn create_wire_between_terms_text(inst1: Seq<char>, inst2: Seq<char>, net_name: Seq<char>) -> Seq<char> {
    guarded(r#"let((cv net) "#@, r#" cv = RB_SCH_CV net = dbMakeNet(cv ""#@ + skill_escape(net_name) + r#"") dbCreateWire(net dbFindTermByName(cv ""#@ + skill_escape(inst1) + r#"") dbFindTermByName(cv ""#@ + skill_escape(inst2) + r#"")))"#@)
}

/// The SKILL text of `SchematicOps::create_wire_label`.
pub open spec fn create_wire_label_text(net_name: Seq<char>, x: int, y: int) -> Seq<char> {
    guarded(r#"let((cv net) "#@, r#" cv = RB_SCH_CV net = dbFindNetByName(cv ""#@ + skill_escape(net_name) + r#"") when(net dbCreateLabel(cv net ""#@ + skill_escape(net_name) + r#"" list("#@ + decimal(x) + r#" "#@ + decimal(y) + r#") "centerCenter" "R0" "stick" 0.0625)))"#@)
}

/// The SKILL text of `SchematicOps::create_pin`.
pub open spec fn create_pin_text(net_name: Seq<char>, pin_type: Seq<char>, x: int, y: int) -> Seq<char> {
    guarded(r#"let((cv master pinInst stubEnd wireObjs wireObj) "#@, r#" cv = RB_SCH_CV master = dbOpenCellViewByType("basic" ""#@ + skill_escape(pin_kind(pin_type).0) + r#"" "symbol" nil "r") pinInst = schCreatePin(cv master ""#@ + skill_escape(net_name) + r#"" ""#@ + skill_escape(pin_kind(pin_type).1) + r#"" ""#@ + skill_escape(net_name) + r#"" list("#@ + decimal(x) + r#" "#@ + decimal(y) + r#") "R0") stubEnd = list("#@ + decimal(x) + r#" + 0.45 "#@ + decimal(y) + r#") wireObjs = schCreateWire(cv "route" "full" list(list("#@ + decimal(x) + r#" "#@ + decimal(y) + r#") stubEnd) 0 0 0 nil nil) wireObj = car(wireObjs) schCreateWireLabel(cv wireObj stubEnd ""#@ + skill_escape(net_name) + r#"" "lowerCenter" "R0" "stick" 0.0625 nil) pinInst)"#@)
}

/// The SKILL text of `SchematicOps::clear_current_cellview`.
pub open spec fn clear_current_cellview_text() -> Seq<char> {
    guarded(r#"let((cv) "#@, r#" cv = RB_SCH_CV foreach(inst cv~>instances dbDeleteObject(inst)) foreach(shape cv~>shapes dbDeleteObject(shape)) foreach(term cv~>terminals dbDeleteObject(term)) foreach(net cv~>nets dbDeleteObject(net)) t)"#@)
}

/// The SKILL text of `SchematicOps::check`.
pub open spec fn check_text() -> Seq<char> {
    guarded(r#"let((cv) "#@, r#" cv = RB_SCH_CV schCheck(cv))"#@)
}

/// The SKILL text of `SchematicOps::open_cellview`.
pub open spec fn open_cellview_text(lib: Seq<char>, cell: Seq<char>, view: Seq<char>) -> Seq<char> {
    r#"RB_SCH_CV = dbOpenCellViewByType(""#@ + skill_escape(lib) + r#"" ""#@ + skill_escape(cell) + r#"" ""#@ + skill_escape(view) + r#"" "schematic" "a")"#@
}

/// The SKILL text of `SchematicOps::save`.
pub open spec fn save_text() -> Seq<char> {
    guarded(r#"let((cv) "#@, r#" cv = RB_SCH_CV dbSave(cv))"#@)
}

/// The SKILL text of `SchematicOps::set_instance_param`.
pub open spec fn set_instance_param_text(inst_name: Seq<char>, param: Seq<char>, value: Seq<char>) -> Seq<char> {
    guarded(r#"let((cv inst) "#@, r#" cv = RB_SCH_CV inst = car(setof(i cv~>instances i~>name == ""#@ + skill_escape(inst_name) + r#"")) when(inst dbReplaceProp(inst ""#@ + skill_escape(param) + r#"" "string" ""#@ + skill_escape(value) + r#"")))"#@)
}

/// The SKILL text of `SchematicOps::list_instances`.
pub open spec fn list_instances_text() -> Seq<char> {
    guarded(r#"let((cv out sep lib cell) "#@, r#" cv = RB_SCH_CV out = "[" sep = "" foreach(inst cv~>instances lib = if(inst~>master inst~>master~>libName "?") cell = if(inst~>master inst~>master~>cellName "?") out = strcat(out sep sprintf(nil "{\"name\":\"%s\",\"master\":\"%s/%s\",\"x\":%g,\"y\":%g}" inst~>name lib cell car(inst~>xy) cadr(inst~>xy))) sep = ",") strcat(out "]"))"#@)
}

/// The SKILL text of `SchematicOps::list_nets`.
pub open spec fn list_nets_text() -> Seq<char> {
    guarded(r#"let((cv out sep) "#@, r#" cv = RB_SCH_CV out = "[" sep = "" foreach(net cv~>nets out = strcat(out sep sprintf(nil "\"%s\"" net~>name)) sep = ",") strcat(out "]"))"#@)
}

/// The SKILL text of `SchematicOps::list_pins`.
pub open spec fn list_pins_text() -> Seq<char> {
    guarded(r#"let((cv out sep) "#@, r#" cv = RB_SCH_CV out = "[" sep = "" foreach(term cv~>terminals out = strcat(out sep sprintf(nil "{\"name\":\"%s\",\"direction\":\"%s\"}" term~>name term~>direction)) sep = ",") strcat(out "]"))"#@)
}

/// The SKILL text of `SchematicOps::get_instance_params`.
pub open spec fn get_instance_params_text(inst_name: Seq<char>) -> Seq<char> {
    guarded(r#"let((cv inst out sep v) "#@, r#" cv = RB_SCH_CV inst = car(setof(i cv~>instances strcmp(i~>name ""#@ + skill_escape(inst_name) + r#"")==0)) if(inst then out = "{" sep = "" foreach(prop inst~>prop when(prop~>name != nil v = prop~>value when(v out = strcat(out sep sprintf(nil "\"%s\":\"%s\"" prop~>name if(stringp(v) v sprintf(nil "%L" v)))) sep = ","))) strcat(out "}") else "null"))"#@)
}

/// The SKILL text of `SchematicOps::assign_net`.
pub open spec fn assign_net_text(inst_name: Seq<char>, term_name: Seq<char>, net_name: Seq<char>) -> Seq<char> {
    r#"let((cv inst iterm masterTerm net) cv = RB_SCH_CV inst = car(setof(i cv~>instances strcmp(i~>name ""#@ + skill_escape(inst_name) + r#"")==0)) masterTerm = car(setof(x inst~>master~>terminals upperCase(x~>name)==upperCase(""#@ + skill_escape(term_name) + r#""))) net = dbMakeNet(cv ""#@ + skill_escape(net_name) + r#"") iterm = car(setof(x inst~>instTerms upperCase(x~>name)==upperCase(""#@ + skill_escape(term_name) + r#""))) when(iterm dbDeleteObject(iterm)) when(masterTerm dbCreateInstTerm(net inst masterTerm)))"#@
}

fn cv_guard() -> (r: String)
    ensures
        r@ == guard_text(),
{
    let mut g = String::from_str(r#"unless(boundp('"#);
    g.append(SCH_CV_VAR);
    g.append(r#") && "#);
    g.append(SCH_CV_VAR);
    g.append(r#" error("RB_SCH_CV is not set - run 'vcli schematic open lib/cell/view' first"))"#);
    g
}

fn guarded_text(head: &str, body: &String) -> (r: String)
    ensures
        r@ == guarded(head@, body@),
{
    let mut s = String::from_str(head);
    let g = cv_guard();
    s.append(g.as_str());
    s.append(body.as_str());
    s
}

fn pin_kind_of(pin_type: &str) -> (r: (&'static str, &'static str))
    ensures
        (r.0@, r.1@) == pin_kind(pin_type@),
{
    let v = chars_of(pin_type);
    let l = lowered_range(&v, 0, v.len());
    assert(v@.subrange(0, v@.len() as int) =~= v@);
    if chars_equal(&l, "input") || chars_equal(&l, "in") || chars_equal(&l, "ipin") {
        ("ipin", "input")
    } else if chars_equal(&l, "output") || chars_equal(&l, "out") || chars_equal(&l, "opin") {
        ("opin", "output")
    } else if chars_equal(&l, "inout") || chars_equal(&l, "io") || chars_equal(&l, "iopin")
        || chars_equal(&l, "inputoutput") {
        ("iopin", "inputOutput")
    } else {
        ("ipin", "input")
    }
}

fn points_list(points: &[(i64, i64)]) -> (r: String)
    ensures
        r@ == points_text(points@),
{
    let mut s = String::new();
    let mut i: usize = 0;
    while i < points.len()
        invariant
            i <= points@.len(),
            s@ == points_text(points@.take(i as int)),
        decreases points@.len() - i,
    {
        let (x, y) = points[i];
        if i > 0 {
            s.append(" ");
        }
        s.append("list(");
        push_decimal(&mut s, x);
        s.append(" ");
        push_decimal(&mut s, y);
        s.append(")");
        proof {
            let next = points@.take(i + 1);
            assert(next.drop_last() =~= points@.take(i as int));
            assert(next.last() == (x, y));
            assert(s@ =~= points_text(next));
        }
        i = i + 1;
    }
    assert(points@.take(points@.len() as int) =~= points@);
    s
}

/// Builds the SKILL text of schematic editing commands.
#[derive(Default)]
pub struct SchematicOps;

impl SchematicOps {
    pub fn new() -> (r: Self) {
        SchematicOps
    }

    /// Places an instance of `lib/cell/view` named `name` at `origin` with orientation `orient`.
    pub fn create_instance(&self, lib: &str, cell: &str, view: &str, name: &str, origin: (i64, i64), orient: &str) -> (r: String)
        ensures
            r@ == create_instance_text(lib@, cell@, view@, name@, origin.0 as int, origin.1 as int, orient@),
    {
        let lib = escape_skill_string(lib);
        let cell = escape_skill_string(cell);
        let view = escape_skill_string(view);
        let name = escape_skill_string(name);
        let orient = escape_skill_string(orient);
        let (x, y) = origin;
        let mut body = String::from_str(r#" cv = RB_SCH_CV master = dbOpenCellViewByType(""#);
        body.append(lib.as_str());
        body.append(r#"" ""#);
        body.append(cell.as_str());
        body.append(r#"" ""#);
        body.append(view.as_str());
        body.append(r#"" nil "r") inst = dbCreateInst(cv master ""#);
        body.append(name.as_str());
        body.append(r#"" list("#);
        push_decimal(&mut body, x);
        body.append(r#" "#);
        push_decimal(&mut body, y);
        body.append(r#") ""#);
        body.append(orient.as_str());
        body.append(r#"" 1) inst)"#);
        guarded_text(r#"let((cv master inst) "#, &body)
    }

    /// Draws a wire through `points` on `layer`, on the net `net_name`.
    pub fn create_wire(&self, points: &[(i64, i64)], layer: &str, net_name: &str) -> (r: String)
        ensures
            r@ == create_wire_text(points@, layer@, net_name@),
    {
        let layer = escape_skill_string(layer);
        let net_name = escape_skill_string(net_name);
        let pts = points_list(points);
        let mut body = String::from_str(r#" cv = RB_SCH_CV dbCreateWire(cv dbMakeNet(cv ""#);
        body.append(net_name.as_str());
        body.append(r#"") dbFindLayerByName(cv ""#);
        body.append(layer.as_str());
        body.append(r#"") list("#);
        body.append(pts.as_str());
        body.append(r#")))"#);
        guarded_text(r#"let((cv) "#, &body)
    }

    /// Wires the terminals of two instances together on the net `net_name`.
    pub fn create_wire_between_terms(&self, inst1: &str, _term1: &str, inst2: &str, _term2: &str, net_name: &str) -> (r: String)
        ensures
            r@ == create_wire_between_terms_text(inst1@, inst2@, net_name@),
    {
        let inst1 = escape_skill_string(inst1);
        let inst2 = escape_skill_string(inst2);
        let net_name = escape_skill_string(net_name);
        let mut body = String::from_str(r#" cv = RB_SCH_CV net = dbMakeNet(cv ""#);
        body.append(net_name.as_str());
        body.append(r#"") dbCreateWire(net dbFindTermByName(cv ""#);
        body.append(inst1.as_str());
        body.append(r#"") dbFindTermByName(cv ""#);
        body.append(inst2.as_str());
        body.append(r#"")))"#);
        guarded_text(r#"let((cv net) "#, &body)
    }

    /// Puts a label of the net `net_name` at `origin`.
    pub fn create_wire_label(&self, net_name: &str, origin: (i64, i64)) -> (r: String)
        ensures
            r@ == create_wire_label_text(net_name@, origin.0 as int, origin.1 as int),
    {
        let net_name = escape_skill_string(net_name);
        let (x, y) = origin;
        let mut body = String::from_str(r#" cv = RB_SCH_CV net = dbFindNetByName(cv ""#);
        body.append(net_name.as_str());
        body.append(r#"") when(net dbCreateLabel(cv net ""#);
        body.append(net_name.as_str());
        body.append(r#"" list("#);
        push_decimal(&mut body, x);
        body.append(r#" "#);
        push_decimal(&mut body, y);
        body.append(r#") "centerCenter" "R0" "stick" 0.0625)))"#);
        guarded_text(r#"let((cv net) "#, &body)
    }

    /// Adds a pin of kind `pin_type` for the net `net_name` at `origin`, with a
    /// short wire stub and a label.
    pub fn create_pin(&self, net_name: &str, pin_type: &str, origin: (i64, i64)) -> (r: String)
        ensures
            r@ == create_pin_text(net_name@, pin_type@, origin.0 as int, origin.1 as int),
    {
        let net_name = escape_skill_string(net_name);
        let (pin_master, direction) = pin_kind_of(pin_type);
        let pin_master = escape_skill_string(pin_master);
        let direction = escape_skill_string(direction);
        let (x, y) = origin;
        let mut body = String::from_str(r#" cv = RB_SCH_CV master = dbOpenCellViewByType("basic" ""#);
        body.append(pin_master.as_str());
        body.append(r#"" "symbol" nil "r") pinInst = schCreatePin(cv master ""#);
        body.append(net_name.as_str());
        body.append(r#"" ""#);
        body.append(direction.as_str());
        body.append(r#"" ""#);
        body.append(net_name.as_str());
        body.append(r#"" list("#);
        push_decimal(&mut body, x);
        body.append(r#" "#);
        push_decimal(&mut body, y);
        body.append(r#") "R0") stubEnd = list("#);
        push_decimal(&mut body, x);
        body.append(r#" + 0.45 "#);
        push_decimal(&mut body, y);
        body.append(r#") wireObjs = schCreateWire(cv "route" "full" list(list("#);
        push_decimal(&mut body, x);
        body.append(r#" "#);
        push_decimal(&mut body, y);
        body.append(r#") stubEnd) 0 0 0 nil nil) wireObj = car(wireObjs) schCreateWireLabel(cv wireObj stubEnd ""#);
        body.append(net_name.as_str());
        body.append(r#"" "lowerCenter" "R0" "stick" 0.0625 nil) pinInst)"#);
        guarded_text(r#"let((cv master pinInst stubEnd wireObjs wireObj) "#, &body)
    }

    /// Deletes every instance, shape, terminal and net of the open cellview.
    pub fn clear_current_cellview(&self) -> (r: String)
        ensures
            r@ == clear_current_cellview_text(),
    {
        let mut body = String::from_str(r#" cv = RB_SCH_CV foreach(inst cv~>instances dbDeleteObject(inst)) foreach(shape cv~>shapes dbDeleteObject(shape)) foreach(term cv~>terminals dbDeleteObject(term)) foreach(net cv~>nets dbDeleteObject(net)) t)"#);
        guarded_text(r#"let((cv) "#, &body)
    }

    /// Runs the schematic check (`schCheck`).
    pub fn check(&self) -> (r: String)
        ensures
            r@ == check_text(),
    {
        let mut body = String::from_str(r#" cv = RB_SCH_CV schCheck(cv))"#);
        guarded_text(r#"let((cv) "#, &body)
    }

    /// Opens (creating it if absent) a schematic cellview for editing and keeps
    /// it in the `RB_SCH_CV` global for the commands that follow.
    pub fn open_cellview(&self, lib: &str, cell: &str, view: &str) -> (r: String)
        ensures
            r@ == open_cellview_text(lib@, cell@, view@),
    {
        let lib = escape_skill_string(lib);
        let cell = escape_skill_string(cell);
        let view = escape_skill_string(view);
        let mut body = String::from_str(r#"RB_SCH_CV = dbOpenCellViewByType(""#);
        body.append(lib.as_str());
        body.append(r#"" ""#);
        body.append(cell.as_str());
        body.append(r#"" ""#);
        body.append(view.as_str());
        body.append(r#"" "schematic" "a")"#);
        body
    }

    /// Saves the open cellview.
    pub fn save(&self) -> (r: String)
        ensures
            r@ == save_text(),
    {
        let mut body = String::from_str(r#" cv = RB_SCH_CV dbSave(cv))"#);
        guarded_text(r#"let((cv) "#, &body)
    }

    /// Sets the string property `param` of the instance `inst_name` to `value`.
    pub fn set_instance_param(&self, inst_name: &str, param: &str, value: &str) -> (r: String)
        ensures
            r@ == set_instance_param_text(inst_name@, param@, value@),
    {
        let inst_name = escape_skill_string(inst_name);
        let param = escape_skill_string(param);
        let value = escape_skill_string(value);
        let mut body = String::from_str(r#" cv = RB_SCH_CV inst = car(setof(i cv~>instances i~>name == ""#);
        body.append(inst_name.as_str());
        body.append(r#"")) when(inst dbReplaceProp(inst ""#);
        body.append(param.as_str());
        body.append(r#"" "string" ""#);
        body.append(value.as_str());
        body.append(r#"")))"#);
        guarded_text(r#"let((cv inst) "#, &body)
    }

    /// List all instances in the open cellview. Returns JSON array via sprintf.
    pub fn list_instances(&self) -> (r: String)
        ensures
            r@ == list_instances_text(),
    {
        let mut body = String::from_str(r#" cv = RB_SCH_CV out = "[" sep = "" foreach(inst cv~>instances lib = if(inst~>master inst~>master~>libName "?") cell = if(inst~>master inst~>master~>cellName "?") out = strcat(out sep sprintf(nil "{\"name\":\"%s\",\"master\":\"%s/%s\",\"x\":%g,\"y\":%g}" inst~>name lib cell car(inst~>xy) cadr(inst~>xy))) sep = ",") strcat(out "]"))"#);
        guarded_text(r#"let((cv out sep lib cell) "#, &body)
    }

    /// List all nets in the open cellview. Returns JSON array.
    pub fn list_nets(&self) -> (r: String)
        ensures
            r@ == list_nets_text(),
    {
        let mut body = String::from_str(r#" cv = RB_SCH_CV out = "[" sep = "" foreach(net cv~>nets out = strcat(out sep sprintf(nil "\"%s\"" net~>name)) sep = ",") strcat(out "]"))"#);
        guarded_text(r#"let((cv out sep) "#, &body)
    }

    /// List all pins (terminals) in the open cellview. Returns JSON array.
    pub fn list_pins(&self) -> (r: String)
        ensures
            r@ == list_pins_text(),
    {
        let mut body = String::from_str(r#" cv = RB_SCH_CV out = "[" sep = "" foreach(term cv~>terminals out = strcat(out sep sprintf(nil "{\"name\":\"%s\",\"direction\":\"%s\"}" term~>name term~>direction)) sep = ",") strcat(out "]"))"#);
        guarded_text(r#"let((cv out sep) "#, &body)
    }

    /// Get parameters of a specific instance. Returns JSON object.
    pub fn get_instance_params(&self, inst_name: &str) -> (r: String)
        ensures
            r@ == get_instance_params_text(inst_name@),
    {
        let inst_name = escape_skill_string(inst_name);
        let mut body = String::from_str(r#" cv = RB_SCH_CV inst = car(setof(i cv~>instances strcmp(i~>name ""#);
        body.append(inst_name.as_str());
        body.append(r#"")==0)) if(inst then out = "{" sep = "" foreach(prop inst~>prop when(prop~>name != nil v = prop~>value when(v out = strcat(out sep sprintf(nil "\"%s\":\"%s\"" prop~>name if(stringp(v) v sprintf(nil "%L" v)))) sep = ","))) strcat(out "}") else "null"))"#);
        guarded_text(r#"let((cv inst out sep v) "#, &body)
    }

    /// Assign net name to instance terminal.
    /// Finds the master terminal and creates an instTerm on the named net.
    /// No wire drawing coordinates needed: purely a logical connection.
    pub fn assign_net(&self, inst_name: &str, term_name: &str, net_name: &str) -> (r: String)
        ensures
            r@ == assign_net_text(inst_name@, term_name@, net_name@),
    {
        let inst_name = escape_skill_string(inst_name);
        let term_name = escape_skill_string(term_name);
        let net_name = escape_skill_string(net_name);
        let mut body = String::from_str(r#"let((cv inst iterm masterTerm net) cv = RB_SCH_CV inst = car(setof(i cv~>instances strcmp(i~>name ""#);
        body.append(inst_name.as_str());
        body.append(r#"")==0)) masterTerm = car(setof(x inst~>master~>terminals upperCase(x~>name)==upperCase(""#);
        body.append(term_name.as_str());
        body.append(r#""))) net = dbMakeNet(cv ""#);
        body.append(net_name.as_str());
        body.append(r#"") iterm = car(setof(x inst~>instTerms upperCase(x~>name)==upperCase(""#);
        body.append(term_name.as_str());
        body.append(r#""))) when(iterm dbDeleteObject(iterm)) when(masterTerm dbCreateInstTerm(net inst masterTerm)))"#);
        body
    }
}

/// The guard stands, whole, in the text of a guarded operation.
proof fn lemma_guarded_contains_guard(t: Seq<char>)
    requires
        exists|head: Seq<char>, body: Seq<char>| t == guarded(head, body),
    ensures
        contains_text(t, guard_text()),
{
    let (head, body) = choose|head: Seq<char>, body: Seq<char>| t == guarded(head, body);
    assert(t.subrange(head.len() as int, head.len() + guard_text().len() as int) =~= guard_text());
}

/// Every operation that writes to or reads from the open cellview carries
/// the guard, so it fails with a message when no cellview was opened.
pub proof fn law_cellview_operations_are_guarded()
    ensures
        forall|lib: Seq<char>, cell: Seq<char>, view: Seq<char>, name: Seq<char>, x: int, y: int, orient: Seq<char>| contains_text(#[trigger] create_instance_text(lib, cell, view, name, x, y, orient), guard_text()),
        forall|inst1: Seq<char>, inst2: Seq<char>, net_name: Seq<char>| contains_text(#[trigger] create_wire_between_terms_text(inst1, inst2, net_name), guard_text()),
        forall|net_name: Seq<char>, x: int, y: int| contains_text(#[trigger] create_wire_label_text(net_name, x, y), guard_text()),
        forall|net_name: Seq<char>, pin_type: Seq<char>, x: int, y: int| contains_text(#[trigger] create_pin_text(net_name, pin_type, x, y), guard_text()),
        contains_text(clear_current_cellview_text(), guard_text()),
        contains_text(check_text(), guard_text()),
        contains_text(save_text(), guard_text()),
        forall|inst_name: Seq<char>, param: Seq<char>, value: Seq<char>| contains_text(#[trigger] set_instance_param_text(inst_name, param, value), guard_text()),
        contains_text(list_instances_text(), guard_text()),
        contains_text(list_nets_text(), guard_text()),
        contains_text(list_pins_text(), guard_text()),
        forall|inst_name: Seq<char>| contains_text(#[trigger] get_instance_params_text(inst_name), guard_text()),
{
    assert forall|lib: Seq<char>, cell: Seq<char>, view: Seq<char>, name: Seq<char>, x: int, y: int, orient: Seq<char>| contains_text(#[trigger] create_instance_text(lib, cell, view, name, x, y, orient), guard_text()) by {
        lemma_guarded_contains_guard(create_instance_text(lib, cell, view, name, x, y, orient));
    }
    assert forall|inst1: Seq<char>, inst2: Seq<char>, net_name: Seq<char>| contains_text(#[trigger] create_wire_between_terms_text(inst1, inst2, net_name), guard_text()) by {
        lemma_guarded_contains_guard(create_wire_between_terms_text(inst1, inst2, net_name));
    }
    assert forall|net_name: Seq<char>, x: int, y: int| contains_text(#[trigger] create_wire_label_text(net_name, x, y), guard_text()) by {
        lemma_guarded_contains_guard(create_wire_label_text(net_name, x, y));
    }
    assert forall|net_name: Seq<char>, pin_type: Seq<char>, x: int, y: int| contains_text(#[trigger] create_pin_text(net_name, pin_type, x, y), guard_text()) by {
        lemma_guarded_contains_guard(create_pin_text(net_name, pin_type, x, y));
    }
    lemma_guarded_contains_guard(clear_current_cellview_text());
    lemma_guarded_contains_guard(check_text());
    lemma_guarded_contains_guard(save_text());
    assert forall|inst_name: Seq<char>, param: Seq<char>, value: Seq<char>| contains_text(#[trigger] set_instance_param_text(inst_name, param, value), guard_text()) by {
        lemma_guarded_contains_guard(set_instance_param_text(inst_name, param, value));
    }
    lemma_guarded_contains_guard(list_instances_text());
    lemma_guarded_contains_guard(list_nets_text());
    lemma_guarded_contains_guard(list_pins_text());
    assert forall|inst_name: Seq<char>| contains_text(#[trigger] get_instance_params_text(inst_name), guard_text()) by {
        lemma_guarded_contains_guard(get_instance_params_text(inst_name));
    }
}

/// `open_cellview` stores the cellview it opens in the global that the
/// guard checks.
pub proof fn law_open_cellview_sets_global(lib: Seq<char>, cell: Seq<char>, view: Seq<char>)
    ensures
        open_cellview_text(lib, cell, view).subrange(0, SCH_CV_VAR@.len() as int + 3) == SCH_CV_VAR@ + " = "@,
{
    reveal_strlit("RB_SCH_CV");
    reveal_strlit(" = ");
    reveal_strlit(r#"RB_SCH_CV = dbOpenCellViewByType(""#);
    assert(open_cellview_text(lib, cell, view).subrange(0, SCH_CV_VAR@.len() as int + 3) =~= SCH_CV_VAR@
        + " = "@);
}

/// The kind of a pin does not depend on the case of its letters.
pub proof fn law_pin_kind_ignores_case(t: Seq<char>)
    ensures
        pin_kind(lower_seq(t)) == pin_kind(t),
{
    lemma_lower_idempotent(t);
}

/// A run of text put between two others occurs in the whole.
proof fn lemma_contains_middle(p: Seq<char>, n: Seq<char>, q: Seq<char>)
    ensures
        contains_text(p + n + q, n),
{
    assert((p + n + q).subrange(p.len() as int, p.len() + n.len() as int) =~= n);
}

/// What occurs in a text occurs in it with more text after it.
proof fn lemma_contains_extended(t: Seq<char>, w: Seq<char>, n: Seq<char>)
    requires
        contains_text(t, n),
    ensures
        contains_text(t + w, n),
{
    let i = choose|i: int| 0 <= i && i + n.len() <= t.len() && #[trigger] t.subrange(i, i + n.len()) == n;
    assert((t + w).subrange(i, i + n.len()) =~= t.subrange(i, i + n.len()));
}

/// What occurs in a text occurs in it with more text before it.
proof fn lemma_contains_behind(f: Seq<char>, t: Seq<char>, n: Seq<char>)
    requires
        contains_text(t, n),
    ensures
        contains_text(f + t, n),
{
    let i = choose|i: int| 0 <= i && i + n.len() <= t.len() && #[trigger] t.subrange(i, i + n.len()) == n;
    assert((f + t).subrange(f.len() + i, f.len() + i + n.len()) =~= t.subrange(i, i + n.len()));
}

/// The label of `create_wire_label(net, (x, y))` is made on the net `net`
/// (quoted) at the point whose first coordinate is `x` and second is `y`.
pub proof fn law_wire_label_at_origin(net: Seq<char>, x: int, y: int)
    ensures
        contains_text(
            create_wire_label_text(net, x, y),
            r#"dbCreateLabel(cv net ""#@ + skill_escape(net) + r#"" list("#@ + decimal(x) + r#" "#@
                + decimal(y) + r#") "centerCenter""#@,
        ),
{
    let e = skill_escape(net);
    let dx = decimal(x);
    let dy = decimal(y);
    let l2 = r#"") when(net dbCreateLabel(cv net ""#@;
    let l5 = r#") "centerCenter" "R0" "stick" 0.0625)))"#@;
    let d = r#"dbCreateLabel(cv net ""#@;
    let f = r#") "centerCenter""#@;
    reveal_strlit(r#"") when(net dbCreateLabel(cv net ""#);
    reveal_strlit(r#") "centerCenter" "R0" "stick" 0.0625)))"#);
    reveal_strlit(r#"dbCreateLabel(cv net ""#);
    reveal_strlit(r#") "centerCenter""#);
    let a = l2.subrange(0, l2.len() - d.len() as int);
    let g = l5.subrange(f.len() as int, l5.len() as int);
    assert(l2 =~= a + d);
    assert(l5 =~= f + g);
    let head = r#"let((cv net) "#@ + guard_text() + r#" cv = RB_SCH_CV net = dbFindNetByName(cv ""#@ + e
        + a;
    let needle = d + e + r#"" list("#@ + dx + r#" "#@ + dy + f;
    assert(create_wire_label_text(net, x, y) =~= head + needle + g);
    lemma_contains_middle(head, needle, g);
}

/// The pin of `create_pin(net, kind, (x, y))` is placed at the point whose
/// first coordinate is `x` and second is `y`, for the net `net` (quoted)
/// with the direction of its kind, and the stub wire starts at that same
/// point, shifted right along the first coordinate.
pub proof fn law_pin_at_origin(net: Seq<char>, kind: Seq<char>, x: int, y: int)
    ensures
        contains_text(
            create_pin_text(net, kind, x, y),
            r#"schCreatePin(cv master ""#@ + skill_escape(net) + r#"" ""#@ + skill_escape(
                pin_kind(kind).1,
            ) + r#"" ""#@ + skill_escape(net) + r#"" list("#@ + decimal(x) + r#" "#@ + decimal(y)
                + r#") "R0") stubEnd = list("#@ + decimal(x) + r#" + 0.45 "#@ + decimal(y),
        ),
{
    let e = skill_escape(net);
    let em = skill_escape(pin_kind(kind).0);
    let ed = skill_escape(pin_kind(kind).1);
    let dx = decimal(x);
    let dy = decimal(y);
    let s2 = r#"" "symbol" nil "r") pinInst = schCreatePin(cv master ""#@;
    let d = r#"schCreatePin(cv master ""#@;
    reveal_strlit(r#"" "symbol" nil "r") pinInst = schCreatePin(cv master ""#);
    reveal_strlit(r#"schCreatePin(cv master ""#);
    let a = s2.subrange(0, s2.len() - d.len() as int);
    assert(s2 =~= a + d);
    let q = r#" cv = RB_SCH_CV master = dbOpenCellViewByType("basic" ""#@ + em + a;
    let p0 = r#" cv = RB_SCH_CV master = dbOpenCellViewByType("basic" ""#@ + em + s2;
    let n0 = d;
    assert(p0 =~= q + n0);
    let p1 = p0 + e;
    let n1 = n0 + e;
    assert(p1 =~= q + n1);
    let p2 = p1 + r#"" ""#@;
    let n2 = n1 + r#"" ""#@;
    assert(p2 =~= q + n2);
    let p3 = p2 + ed;
    let n3 = n2 + ed;
    assert(p3 =~= q + n3);
    let p4 = p3 + r#"" ""#@;
    let n4 = n3 + r#"" ""#@;
    assert(p4 =~= q + n4);
    let p5 = p4 + e;
    let n5 = n4 + e;
    assert(p5 =~= q + n5);
    let p6 = p5 + r#"" list("#@;
    let n6 = n5 + r#"" list("#@;
    assert(p6 =~= q + n6);
    let p7 = p6 + dx;
    let n7 = n6 + dx;
    assert(p7 =~= q + n7);
    let p8 = p7 + r#" "#@;
    let n8 = n7 + r#" "#@;
    assert(p8 =~= q + n8);
    let p9 = p8 + dy;
    let n9 = n8 + dy;
    assert(p9 =~= q + n9);
    let p10 = p9 + r#") "R0") stubEnd = list("#@;
    let n10 = n9 + r#") "R0") stubEnd = list("#@;
    assert(p10 =~= q + n10);
    let p11 = p10 + dx;
    let n11 = n10 + dx;
    assert(p11 =~= q + n11);
    let p12 = p11 + r#" + 0.45 "#@;
    let n12 = n11 + r#" + 0.45 "#@;
    assert(p12 =~= q + n12);
    let p13 = p12 + dy;
    let n13 = n12 + dy;
    assert(p13 =~= q + n13);
    lemma_contains_middle(q, n13, Seq::empty());
    assert(q + n13 + Seq::<char>::empty() =~= p13);
    let mut whole = p13;
    lemma_contains_extended(whole, r#") wireObjs = schCreateWire(cv "route" "full" list(list("#@, n13);
    whole = whole + r#") wireObjs = schCreateWire(cv "route" "full" list(list("#@;
    lemma_contains_extended(whole, dx, n13);
    whole = whole + dx;
    lemma_contains_extended(whole, r#" "#@, n13);
    whole = whole + r#" "#@;
    lemma_contains_extended(whole, dy, n13);
    whole = whole + dy;
    lemma_contains_extended(whole, r#") stubEnd) 0 0 0 nil nil) wireObj = car(wireObjs) schCreateWireLabel(cv wireObj stubEnd ""#@, n13);
    whole = whole + r#") stubEnd) 0 0 0 nil nil) wireObj = car(wireObjs) schCreateWireLabel(cv wireObj stubEnd ""#@;
    lemma_contains_extended(whole, e, n13);
    whole = whole + e;
    lemma_contains_extended(whole, r#"" "lowerCenter" "R0" "stick" 0.0625 nil) pinInst)"#@, n13);
    whole = whole + r#"" "lowerCenter" "R0" "stick" 0.0625 nil) pinInst)"#@;
    let front = r#"let((cv master pinInst stubEnd wireObjs wireObj) "#@ + guard_text();
    lemma_contains_behind(front, whole, n13);
    assert(create_pin_text(net, kind, x, y) == front + whole);
    assert(n13 == d + e + r#"" ""#@ + ed + r#"" ""#@ + e + r#"" list("#@ + dx + r#" "#@ + dy
        + r#") "R0") stubEnd = list("#@ + dx + r#" + 0.45 "#@ + dy);
}

} // verus!
