//! RPC schema: method signatures and parameter metadata.
//!
//! Each method has:
//!   - `name`: "domain.method", namespaced by domain
//!   - `params`: a JSON-Schema-like parameter list
//!   - `returns_text`: a description of what it returns
use vstd::prelude::*;

use crate::capability::{
    gating_capability, lemma_method_domain_of_dotted, Capability, CapabilitySet,
};

verus! {

broadcast use vstd::string::group_string_axioms;

/// A parameter definition.
#[derive(Debug, Clone)]
pub struct Param {
    pub name: String,
    pub ptype: String,
    pub description: String,
    pub required: bool,
}

/// A single RPC method definition.
#[derive(Debug, Clone)]
pub struct Method {
    pub name: String,
    pub summary: String,
    pub params: Vec<Param>,
    pub returns_text: String,
}

/// Full RPC schema containing all available methods.
#[derive(Debug, Clone)]
pub struct RpcSchema {
    pub version: String,
    pub methods: Vec<Method>,
}

/// What a `Param` holds, as text.
pub struct ParamView {
    pub name: Seq<char>,
    pub ptype: Seq<char>,
    pub description: Seq<char>,
    pub required: bool,
}

/// What a `Method` holds, as text.
pub struct MethodView {
    pub name: Seq<char>,
    pub summary: Seq<char>,
    pub params: Seq<ParamView>,
    pub returns_text: Seq<char>,
}

/// What an `RpcSchema` holds, as text.
pub struct RpcSchemaView {
    pub version: Seq<char>,
    pub methods: Seq<MethodView>,
}

impl View for Param {
    type V = ParamView;

    open spec fn view(&self) -> ParamView {
        ParamView {
            name: self.name@,
            ptype: self.ptype@,
            description: self.description@,
            required: self.required,
        }
    }
}

impl View for Method {
    type V = MethodView;

    open spec fn view(&self) -> MethodView {
        MethodView {
            name: self.name@,
            summary: self.summary@,
            params: self.params@.map_values(|p: Param| p@),
            returns_text: self.returns_text@,
        }
    }
}

impl View for RpcSchema {
    type V = RpcSchemaView;

    open spec fn view(&self) -> RpcSchemaView {
        RpcSchemaView { version: self.version@, methods: self.methods@.map_values(|m: Method| m@) }
    }
}

impl RpcSchema {
    /// A schema of version "1.0" with the given methods.
    pub fn new(methods: Vec<Method>) -> (r: Self)
        ensures
            r@.version == "1.0"@,
            r.methods@ == methods@,
    {
        RpcSchema { version: String::from_str("1.0"), methods }
    }
}

pub open spec fn param_view(
    name: Seq<char>,
    ptype: Seq<char>,
    description: Seq<char>,
    required: bool,
) -> ParamView {
    ParamView { name, ptype, description, required }
}

/// The `k`-th method of the built-in schema.
pub open spec fn standard_method(k: int) -> MethodView {
    if k == 0 {
        MethodView {
            name: "schematic.open_cell_view"@,
            summary: "Open or create a schematic cellview for editing"@,
            params: seq![
                param_view("lib"@, "string"@, "Library name"@, true),
                param_view("cell"@, "string"@, "Cell name"@, true),
                param_view("view"@, "string"@, "View name (default: schematic)"@, false),
            ],
            returns_text: "null on success"@,
        }
    } else if k == 1 {
        MethodView {
            name: "schematic.place"@,
            summary: "Place an instance in the open schematic"@,
            params: seq![
                param_view("master"@, "string"@, "Master cell in lib/cell format (e.g. smic13mmrf/p12)"@, true),
                param_view("name"@, "string"@, "Instance name"@, true),
                param_view("x"@, "integer"@, "X coordinate"@, false),
                param_view("y"@, "integer"@, "Y coordinate"@, false),
                param_view("orient"@, "string"@, "Orientation (R0, R90, R180, R270, MY, MX, etc.)"@, false),
            ],
            returns_text: "null on success"@,
        }
    } else if k == 2 {
        MethodView {
            name: "schematic.wire"@,
            summary: "Create a wire between named net and coordinates"@,
            params: seq![
                param_view("net"@, "string"@, "Net name"@, true),
                param_view("points"@, "array"@, "Points as x1,y1 x2,y2 ..."@, true),
            ],
            returns_text: "null on success"@,
        }
    } else if k == 3 {
        MethodView {
            name: "schematic.label"@,
            summary: "Add a net label at coordinates"@,
            params: seq![
                param_view("net"@, "string"@, "Net name"@, true),
                param_view("x"@, "integer"@, "X coordinate"@, false),
                param_view("y"@, "integer"@, "Y coordinate"@, false),
            ],
            returns_text: "null on success"@,
        }
    } else if k == 4 {
        MethodView {
            name: "schematic.pin"@,
            summary: "Add a pin to a net"@,
            params: seq![
                param_view("net"@, "string"@, "Net name"@, true),
                param_view("direction"@, "string"@, "Pin direction: input, output, inputOutput"@, true),
                param_view("x"@, "integer"@, "X coordinate"@, false),
                param_view("y"@, "integer"@, "Y coordinate"@, false),
            ],
            returns_text: "null on success"@,
        }
    } else if k == 5 {
        MethodView {
            name: "schematic.save"@,
            summary: "Save the current schematic"@,
            params: seq![
            ],
            returns_text: "null on success"@,
        }
    } else if k == 6 {
        MethodView {
            name: "schematic.check"@,
            summary: "Run schematic check (schCheck)"@,
            params: seq![
            ],
            returns_text: "schCheck output"@,
        }
    } else if k == 7 {
        MethodView {
            name: "schematic.list_instances"@,
            summary: "List all instances in the open cellview"@,
            params: seq![
            ],
            returns_text: "JSON array of instances"@,
        }
    } else if k == 8 {
        MethodView {
            name: "schematic.list_nets"@,
            summary: "List all nets in the open cellview"@,
            params: seq![
            ],
            returns_text: "JSON array of net names"@,
        }
    } else if k == 9 {
        MethodView {
            name: "schematic.list_pins"@,
            summary: "List all pins in the open cellview"@,
            params: seq![
            ],
            returns_text: "JSON array of pins"@,
        }
    } else if k == 10 {
        MethodView {
            name: "schematic.get_params"@,
            summary: "Get parameters of a specific instance"@,
            params: seq![
                param_view("inst"@, "string"@, "Instance name (e.g. M1)"@, true),
            ],
            returns_text: "JSON object of param name→value"@,
        }
    } else if k == 11 {
        MethodView {
            name: "window.list"@,
            summary: "List all open Virtuoso windows"@,
            params: seq![
            ],
            returns_text: "JSON array of window names"@,
        }
    } else if k == 12 {
        MethodView {
            name: "window.screenshot"@,
            summary: "Capture screenshot of current window"@,
            params: seq![
                param_view("path"@, "string"@, "Output PNG file path"@, true),
            ],
            returns_text: "file path on success"@,
        }
    } else if k == 13 {
        MethodView {
            name: "cell.open"@,
            summary: "Open a cellview"@,
            params: seq![
                param_view("lib"@, "string"@, "Library name"@, true),
                param_view("cell"@, "string"@, "Cell name"@, true),
                param_view("view"@, "string"@, "View name"@, false),
                param_view("mode"@, "string"@, "Open mode: r(ead), o(verwrite), a(ppend)"@, false),
            ],
            returns_text: "null on success"@,
        }
    } else if k == 14 {
        MethodView {
            name: "cell.save"@,
            summary: "Save the current cellview"@,
            params: seq![
            ],
            returns_text: "null on success"@,
        }
    } else if k == 15 {
        MethodView {
            name: "cell.close"@,
            summary: "Close the current cellview"@,
            params: seq![
            ],
            returns_text: "null on success"@,
        }
    } else if k == 16 {
        MethodView {
            name: "maestro.open_session"@,
            summary: "Open a Maestro session"@,
            params: seq![
                param_view("lib"@, "string"@, "Library name"@, true),
                param_view("cell"@, "string"@, "Cell name"@, true),
                param_view("view"@, "string"@, "View name"@, false),
            ],
            returns_text: "session handle string"@,
        }
    } else if k == 17 {
        MethodView {
            name: "maestro.close_session"@,
            summary: "Close a Maestro session"@,
            params: seq![
                param_view("session"@, "string"@, "Session ID (e.g. fnxSession4)"@, true),
            ],
            returns_text: "null on success"@,
        }
    } else if k == 18 {
        MethodView {
            name: "maestro.list_sessions"@,
            summary: "List all active Maestro sessions"@,
            params: seq![
            ],
            returns_text: "JSON array of session objects"@,
        }
    } else if k == 19 {
        MethodView {
            name: "maestro.set_var"@,
            summary: "Set a design variable"@,
            params: seq![
                param_view("name"@, "string"@, "Variable name"@, true),
                param_view("value"@, "string"@, "Variable value"@, true),
            ],
            returns_text: "null on success"@,
        }
    } else if k == 20 {
        MethodView {
            name: "maestro.get_var"@,
            summary: "Get a design variable"@,
            params: seq![
                param_view("name"@, "string"@, "Variable name"@, true),
            ],
            returns_text: "variable value string"@,
        }
    } else if k == 21 {
        MethodView {
            name: "maestro.list_vars"@,
            summary: "List all design variables"@,
            params: seq![
            ],
            returns_text: "JSON array of {name, value}"@,
        }
    } else if k == 22 {
        MethodView {
            name: "maestro.run"@,
            summary: "Run simulation asynchronously"@,
            params: seq![
                param_view("session"@, "string"@, "Session ID"@, true),
            ],
            returns_text: "null on success"@,
        }
    } else if k == 23 {
        MethodView {
            name: "maestro.save"@,
            summary: "Save Maestro setup to disk"@,
            params: seq![
                param_view("session"@, "string"@, "Session ID"@, true),
            ],
            returns_text: "null on success"@,
        }
    } else if k == 24 {
        MethodView {
            name: "maestro.export"@,
            summary: "Export results to CSV"@,
            params: seq![
                param_view("session"@, "string"@, "Session ID"@, true),
                param_view("path"@, "string"@, "Output CSV file path"@, true),
                param_view("test_name"@, "string"@, "Test name (optional)"@, false),
            ],
            returns_text: "null on success"@,
        }
    } else {
        MethodView {
            name: Seq::empty(),
            summary: Seq::empty(),
            params: Seq::empty(),
            returns_text: Seq::empty(),
        }
    }
}

/// The number of methods of the built-in schema.
pub const STANDARD_METHOD_COUNT: usize = 25;

/// The methods of the built-in schema, in order.
pub open spec fn standard_methods() -> Seq<MethodView> {
    Seq::new(STANDARD_METHOD_COUNT as nat, |k: int| standard_method(k))
}

proof fn lemma_extend_standard(prev: Seq<Method>, m: Method, k: int)
    requires
        0 <= k < STANDARD_METHOD_COUNT,
        prev.map_values(|x: Method| x@) == standard_methods().take(k),
        m@ == standard_method(k),
    ensures
        prev.push(m).map_values(|x: Method| x@) == standard_methods().take(k + 1),
{
    assert(prev.push(m).map_values(|x: Method| x@) =~= standard_methods().take(k + 1)) by {
        assert(prev.map_values(|x: Method| x@).len() == k);
    }
}

fn param(name: &str, ptype: &str, description: &str, required: bool) -> (r: Param)
    ensures
        r@ == param_view(name@, ptype@, description@, required),
{
    Param {
        name: String::from_str(name),
        ptype: String::from_str(ptype),
        description: String::from_str(description),
        required,
    }
}

fn method(name: &str, summary: &str, params: Vec<Param>, returns_text: &str) -> (r: Method)
    ensures
        r.name@ == name@,
        r.summary@ == summary@,
        r.params@ == params@,
        r.returns_text@ == returns_text@,
{
    Method {
        name: String::from_str(name),
        summary: String::from_str(summary),
        params,
        returns_text: String::from_str(returns_text),
    }
}

/// Built-in schema with all available RPC methods.
pub fn standard_schema() -> (r: RpcSchema)
    ensures
        r@.version == "1.0"@,
        r@.methods == standard_methods(),
{
    let mut methods: Vec<Method> = Vec::new();
    assert(methods@.map_values(|x: Method| x@) =~= standard_methods().take(0));
    let m = method(
        "schematic.open_cell_view",
        "Open or create a schematic cellview for editing",
        vec![
            param("lib", "string", "Library name", true),
            param("cell", "string", "Cell name", true),
            param("view", "string", "View name (default: schematic)", false),
        ],
        "null on success",
    );
    proof {
        assert(m@.params =~= standard_method(0).params);
        lemma_extend_standard(methods@, m, 0);
    }
    methods.push(m);
    let m = method(
        "schematic.place",
        "Place an instance in the open schematic",
        vec![
            param("master", "string", "Master cell in lib/cell format (e.g. smic13mmrf/p12)", true),
            param("name", "string", "Instance name", true),
            param("x", "integer", "X coordinate", false),
            param("y", "integer", "Y coordinate", false),
            param("orient", "string", "Orientation (R0, R90, R180, R270, MY, MX, etc.)", false),
        ],
        "null on success",
    );
    proof {
        assert(m@.params =~= standard_method(1).params);
        lemma_extend_standard(methods@, m, 1);
    }
    methods.push(m);
    let m = method(
        "schematic.wire",
        "Create a wire between named net and coordinates",
        vec![
            param("net", "string", "Net name", true),
            param("points", "array", "Points as x1,y1 x2,y2 ...", true),
        ],
        "null on success",
    );
    proof {
        assert(m@.params =~= standard_method(2).params);
        lemma_extend_standard(methods@, m, 2);
    }
    methods.push(m);
    let m = method(
        "schematic.label",
        "Add a net label at coordinates",
        vec![
            param("net", "string", "Net name", true),
            param("x", "integer", "X coordinate", false),
            param("y", "integer", "Y coordinate", false),
        ],
        "null on success",
    );
    proof {
        assert(m@.params =~= standard_method(3).params);
        lemma_extend_standard(methods@, m, 3);
    }
    methods.push(m);
    let m = method(
        "schematic.pin",
        "Add a pin to a net",
        vec![
            param("net", "string", "Net name", true),
            param("direction", "string", "Pin direction: input, output, inputOutput", true),
            param("x", "integer", "X coordinate", false),
            param("y", "integer", "Y coordinate", false),
        ],
        "null on success",
    );
    proof {
        assert(m@.params =~= standard_method(4).params);
        lemma_extend_standard(methods@, m, 4);
    }
    methods.push(m);
    let m = method(
        "schematic.save",
        "Save the current schematic",
        vec![
        ],
        "null on success",
    );
    proof {
        assert(m@.params =~= standard_method(5).params);
        lemma_extend_standard(methods@, m, 5);
    }
    methods.push(m);
    let m = method(
        "schematic.check",
        "Run schematic check (schCheck)",
        vec![
        ],
        "schCheck output",
    );
    proof {
        assert(m@.params =~= standard_method(6).params);
        lemma_extend_standard(methods@, m, 6);
    }
    methods.push(m);
    let m = method(
        "schematic.list_instances",
        "List all instances in the open cellview",
        vec![
        ],
        "JSON array of instances",
    );
    proof {
        assert(m@.params =~= standard_method(7).params);
        lemma_extend_standard(methods@, m, 7);
    }
    methods.push(m);
    let m = method(
        "schematic.list_nets",
        "List all nets in the open cellview",
        vec![
        ],
        "JSON array of net names",
    );
    proof {
        assert(m@.params =~= standard_method(8).params);
        lemma_extend_standard(methods@, m, 8);
    }
    methods.push(m);
    let m = method(
        "schematic.list_pins",
        "List all pins in the open cellview",
        vec![
        ],
        "JSON array of pins",
    );
    proof {
        assert(m@.params =~= standard_method(9).params);
        lemma_extend_standard(methods@, m, 9);
    }
    methods.push(m);
    let m = method(
        "schematic.get_params",
        "Get parameters of a specific instance",
        vec![
            param("inst", "string", "Instance name (e.g. M1)", true),
        ],
        "JSON object of param name→value",
    );
    proof {
        assert(m@.params =~= standard_method(10).params);
        lemma_extend_standard(methods@, m, 10);
    }
    methods.push(m);
    let m = method(
        "window.list",
        "List all open Virtuoso windows",
        vec![
        ],
        "JSON array of window names",
    );
    proof {
        assert(m@.params =~= standard_method(11).params);
        lemma_extend_standard(methods@, m, 11);
    }
    methods.push(m);
    let m = method(
        "window.screenshot",
        "Capture screenshot of current window",
        vec![
            param("path", "string", "Output PNG file path", true),
        ],
        "file path on success",
    );
    proof {
        assert(m@.params =~= standard_method(12).params);
        lemma_extend_standard(methods@, m, 12);
    }
    methods.push(m);
    let m = method(
        "cell.open",
        "Open a cellview",
        vec![
            param("lib", "string", "Library name", true),
            param("cell", "string", "Cell name", true),
            param("view", "string", "View name", false),
            param("mode", "string", "Open mode: r(ead), o(verwrite), a(ppend)", false),
        ],
        "null on success",
    );
    proof {
        assert(m@.params =~= standard_method(13).params);
        lemma_extend_standard(methods@, m, 13);
    }
    methods.push(m);
    let m = method(
        "cell.save",
        "Save the current cellview",
        vec![
        ],
        "null on success",
    );
    proof {
        assert(m@.params =~= standard_method(14).params);
        lemma_extend_standard(methods@, m, 14);
    }
    methods.push(m);
    let m = method(
        "cell.close",
        "Close the current cellview",
        vec![
        ],
        "null on success",
    );
    proof {
        assert(m@.params =~= standard_method(15).params);
        lemma_extend_standard(methods@, m, 15);
    }
    methods.push(m);
    let m = method(
        "maestro.open_session",
        "Open a Maestro session",
        vec![
            param("lib", "string", "Library name", true),
            param("cell", "string", "Cell name", true),
            param("view", "string", "View name", false),
        ],
        "session handle string",
    );
    proof {
        assert(m@.params =~= standard_method(16).params);
        lemma_extend_standard(methods@, m, 16);
    }
    methods.push(m);
    let m = method(
        "maestro.close_session",
        "Close a Maestro session",
        vec![
            param("session", "string", "Session ID (e.g. fnxSession4)", true),
        ],
        "null on success",
    );
    proof {
        assert(m@.params =~= standard_method(17).params);
        lemma_extend_standard(methods@, m, 17);
    }
    methods.push(m);
    let m = method(
        "maestro.list_sessions",
        "List all active Maestro sessions",
        vec![
        ],
        "JSON array of session objects",
    );
    proof {
        assert(m@.params =~= standard_method(18).params);
        lemma_extend_standard(methods@, m, 18);
    }
    methods.push(m);
    let m = method(
        "maestro.set_var",
        "Set a design variable",
        vec![
            param("name", "string", "Variable name", true),
            param("value", "string", "Variable value", true),
        ],
        "null on success",
    );
    proof {
        assert(m@.params =~= standard_method(19).params);
        lemma_extend_standard(methods@, m, 19);
    }
    methods.push(m);
    let m = method(
        "maestro.get_var",
        "Get a design variable",
        vec![
            param("name", "string", "Variable name", true),
        ],
        "variable value string",
    );
    proof {
        assert(m@.params =~= standard_method(20).params);
        lemma_extend_standard(methods@, m, 20);
    }
    methods.push(m);
    let m = method(
        "maestro.list_vars",
        "List all design variables",
        vec![
        ],
        "JSON array of {name, value}",
    );
    proof {
        assert(m@.params =~= standard_method(21).params);
        lemma_extend_standard(methods@, m, 21);
    }
    methods.push(m);
    let m = method(
        "maestro.run",
        "Run simulation asynchronously",
        vec![
            param("session", "string", "Session ID", true),
        ],
        "null on success",
    );
    proof {
        assert(m@.params =~= standard_method(22).params);
        lemma_extend_standard(methods@, m, 22);
    }
    methods.push(m);
    let m = method(
        "maestro.save",
        "Save Maestro setup to disk",
        vec![
            param("session", "string", "Session ID", true),
        ],
        "null on success",
    );
    proof {
        assert(m@.params =~= standard_method(23).params);
        lemma_extend_standard(methods@, m, 23);
    }
    methods.push(m);
    let m = method(
        "maestro.export",
        "Export results to CSV",
        vec![
            param("session", "string", "Session ID", true),
            param("path", "string", "Output CSV file path", true),
            param("test_name", "string", "Test name (optional)", false),
        ],
        "null on success",
    );
    proof {
        assert(m@.params =~= standard_method(24).params);
        lemma_extend_standard(methods@, m, 24);
    }
    methods.push(m);
    assert(standard_methods().take(STANDARD_METHOD_COUNT as int) =~= standard_methods());
    let r = RpcSchema::new(methods);
    r
}

/// Every method of the built-in schema lies in a domain that a capability
/// gates; so a client that was given no capability list (every capability
/// but `Admin`) is permitted every standard method.
#[verifier::rlimit(50)]
pub proof fn law_standard_methods_are_gated(k: int, caps: CapabilitySet)
    requires
        0 <= k < STANDARD_METHOD_COUNT,
        caps@ == set![
            Capability::Schematic,
            Capability::Maestro,
            Capability::Window,
            Capability::Cell,
            Capability::Simulation,
            Capability::Transaction,
        ],
    ensures
        gating_capability(standard_method(k).name) is Some,
        caps.spec_permits_method(standard_method(k).name),
{
    reveal_strlit("schematic");
    reveal_strlit("maestro");
    reveal_strlit("window");
    reveal_strlit("cell");
    if k == 0 {
        reveal_strlit("schematic.open_cell_view");
        reveal_strlit("schematic");
        reveal_strlit("open_cell_view");
        assert(standard_method(k).name =~= "schematic"@ + seq!['.'] + "open_cell_view"@);
        lemma_method_domain_of_dotted("schematic"@, "open_cell_view"@);
    } else if k == 1 {
        reveal_strlit("schematic.place");
        reveal_strlit("schematic");
        reveal_strlit("place");
        assert(standard_method(k).name =~= "schematic"@ + seq!['.'] + "place"@);
        lemma_method_domain_of_dotted("schematic"@, "place"@);
    } else if k == 2 {
        reveal_strlit("schematic.wire");
        reveal_strlit("schematic");
        reveal_strlit("wire");
        assert(standard_method(k).name =~= "schematic"@ + seq!['.'] + "wire"@);
        lemma_method_domain_of_dotted("schematic"@, "wire"@);
    } else if k == 3 {
        reveal_strlit("schematic.label");
        reveal_strlit("schematic");
        reveal_strlit("label");
        assert(standard_method(k).name =~= "schematic"@ + seq!['.'] + "label"@);
        lemma_method_domain_of_dotted("schematic"@, "label"@);
    } else if k == 4 {
        reveal_strlit("schematic.pin");
        reveal_strlit("schematic");
        reveal_strlit("pin");
        assert(standard_method(k).name =~= "schematic"@ + seq!['.'] + "pin"@);
        lemma_method_domain_of_dotted("schematic"@, "pin"@);
    } else if k == 5 {
        reveal_strlit("schematic.save");
        reveal_strlit("schematic");
        reveal_strlit("save");
        assert(standard_method(k).name =~= "schematic"@ + seq!['.'] + "save"@);
        lemma_method_domain_of_dotted("schematic"@, "save"@);
    } else if k == 6 {
        reveal_strlit("schematic.check");
        reveal_strlit("schematic");
        reveal_strlit("check");
        assert(standard_method(k).name =~= "schematic"@ + seq!['.'] + "check"@);
        lemma_method_domain_of_dotted("schematic"@, "check"@);
    } else if k == 7 {
        reveal_strlit("schematic.list_instances");
        reveal_strlit("schematic");
        reveal_strlit("list_instances");
        assert(standard_method(k).name =~= "schematic"@ + seq!['.'] + "list_instances"@);
        lemma_method_domain_of_dotted("schematic"@, "list_instances"@);
    } else if k == 8 {
        reveal_strlit("schematic.list_nets");
        reveal_strlit("schematic");
        reveal_strlit("list_nets");
        assert(standard_method(k).name =~= "schematic"@ + seq!['.'] + "list_nets"@);
        lemma_method_domain_of_dotted("schematic"@, "list_nets"@);
    } else if k == 9 {
        reveal_strlit("schematic.list_pins");
        reveal_strlit("schematic");
        reveal_strlit("list_pins");
        assert(standard_method(k).name =~= "schematic"@ + seq!['.'] + "list_pins"@);
        lemma_method_domain_of_dotted("schematic"@, "list_pins"@);
    } else if k == 10 {
        reveal_strlit("schematic.get_params");
        reveal_strlit("schematic");
        reveal_strlit("get_params");
        assert(standard_method(k).name =~= "schematic"@ + seq!['.'] + "get_params"@);
        lemma_method_domain_of_dotted("schematic"@, "get_params"@);
    } else if k == 11 {
        reveal_strlit("window.list");
        reveal_strlit("window");
        reveal_strlit("list");
        assert(standard_method(k).name =~= "window"@ + seq!['.'] + "list"@);
        lemma_method_domain_of_dotted("window"@, "list"@);
    } else if k == 12 {
        reveal_strlit("window.screenshot");
        reveal_strlit("window");
        reveal_strlit("screenshot");
        assert(standard_method(k).name =~= "window"@ + seq!['.'] + "screenshot"@);
        lemma_method_domain_of_dotted("window"@, "screenshot"@);
    } else if k == 13 {
        reveal_strlit("cell.open");
        reveal_strlit("cell");
        reveal_strlit("open");
        assert(standard_method(k).name =~= "cell"@ + seq!['.'] + "open"@);
        lemma_method_domain_of_dotted("cell"@, "open"@);
    } else if k == 14 {
        reveal_strlit("cell.save");
        reveal_strlit("cell");
        reveal_strlit("save");
        assert(standard_method(k).name =~= "cell"@ + seq!['.'] + "save"@);
        lemma_method_domain_of_dotted("cell"@, "save"@);
    } else if k == 15 {
        reveal_strlit("cell.close");
        reveal_strlit("cell");
        reveal_strlit("close");
        assert(standard_method(k).name =~= "cell"@ + seq!['.'] + "close"@);
        lemma_method_domain_of_dotted("cell"@, "close"@);
    } else if k == 16 {
        reveal_strlit("maestro.open_session");
        reveal_strlit("maestro");
        reveal_strlit("open_session");
        assert(standard_method(k).name =~= "maestro"@ + seq!['.'] + "open_session"@);
        lemma_method_domain_of_dotted("maestro"@, "open_session"@);
    } else if k == 17 {
        reveal_strlit("maestro.close_session");
        reveal_strlit("maestro");
        reveal_strlit("close_session");
        assert(standard_method(k).name =~= "maestro"@ + seq!['.'] + "close_session"@);
        lemma_method_domain_of_dotted("maestro"@, "close_session"@);
    } else if k == 18 {
        reveal_strlit("maestro.list_sessions");
        reveal_strlit("maestro");
        reveal_strlit("list_sessions");
        assert(standard_method(k).name =~= "maestro"@ + seq!['.'] + "list_sessions"@);
        lemma_method_domain_of_dotted("maestro"@, "list_sessions"@);
    } else if k == 19 {
        reveal_strlit("maestro.set_var");
        reveal_strlit("maestro");
        reveal_strlit("set_var");
        assert(standard_method(k).name =~= "maestro"@ + seq!['.'] + "set_var"@);
        lemma_method_domain_of_dotted("maestro"@, "set_var"@);
    } else if k == 20 {
        reveal_strlit("maestro.get_var");
        reveal_strlit("maestro");
        reveal_strlit("get_var");
        assert(standard_method(k).name =~= "maestro"@ + seq!['.'] + "get_var"@);
        lemma_method_domain_of_dotted("maestro"@, "get_var"@);
    } else if k == 21 {
        reveal_strlit("maestro.list_vars");
        reveal_strlit("maestro");
        reveal_strlit("list_vars");
        assert(standard_method(k).name =~= "maestro"@ + seq!['.'] + "list_vars"@);
        lemma_method_domain_of_dotted("maestro"@, "list_vars"@);
    } else if k == 22 {
        reveal_strlit("maestro.run");
        reveal_strlit("maestro");
        reveal_strlit("run");
        assert(standard_method(k).name =~= "maestro"@ + seq!['.'] + "run"@);
        lemma_method_domain_of_dotted("maestro"@, "run"@);
    } else if k == 23 {
        reveal_strlit("maestro.save");
        reveal_strlit("maestro");
        reveal_strlit("save");
        assert(standard_method(k).name =~= "maestro"@ + seq!['.'] + "save"@);
        lemma_method_domain_of_dotted("maestro"@, "save"@);
    } else if k == 24 {
        reveal_strlit("maestro.export");
        reveal_strlit("maestro");
        reveal_strlit("export");
        assert(standard_method(k).name =~= "maestro"@ + seq!['.'] + "export"@);
        lemma_method_domain_of_dotted("maestro"@, "export"@);
    }
}

/// The parameters that a caller may leave out: the view of a cellview, the
/// coordinates and orientation of what is placed, the open mode of a
/// cellview, and the name of a test.
pub open spec fn optional_param_name(n: Seq<char>) -> bool {
    ||| n == "view"@
    ||| n == "x"@
    ||| n == "y"@
    ||| n == "orient"@
    ||| n == "mode"@
    ||| n == "test_name"@
}

/// Which parameter names are optional, name by name.
proof fn lemma_optional_names()
    ensures
        !optional_param_name("lib"@),
        !optional_param_name("cell"@),
        !optional_param_name("master"@),
        !optional_param_name("name"@),
        !optional_param_name("net"@),
        !optional_param_name("points"@),
        !optional_param_name("direction"@),
        !optional_param_name("inst"@),
        !optional_param_name("path"@),
        !optional_param_name("session"@),
        !optional_param_name("value"@),
        optional_param_name("view"@),
        optional_param_name("x"@),
        optional_param_name("y"@),
        optional_param_name("orient"@),
        optional_param_name("mode"@),
        optional_param_name("test_name"@),
{
    reveal_strlit("lib");
    reveal_strlit("cell");
    reveal_strlit("master");
    reveal_strlit("name");
    reveal_strlit("net");
    reveal_strlit("points");
    reveal_strlit("direction");
    reveal_strlit("inst");
    reveal_strlit("path");
    reveal_strlit("session");
    reveal_strlit("value");
    reveal_strlit("view");
    reveal_strlit("x");
    reveal_strlit("y");
    reveal_strlit("orient");
    reveal_strlit("mode");
    reveal_strlit("test_name");
    assert("lib"@.len() == 3);
    assert("cell"@.len() == 4);
    assert("master"@.len() == 6);
    assert("name"@.len() == 4);
    assert("net"@.len() == 3);
    assert("points"@.len() == 6);
    assert("direction"@.len() == 9);
    assert("inst"@.len() == 4);
    assert("path"@.len() == 4);
    assert("session"@.len() == 7);
    assert("value"@.len() == 5);
    assert("view"@.len() == 4);
    assert("x"@.len() == 1);
    assert("y"@.len() == 1);
    assert("orient"@.len() == 6);
    assert("mode"@.len() == 4);
    assert("test_name"@.len() == 9);
    assert("cell"@[0] != "view"@[0]);
    assert("cell"@[0] != "mode"@[0]);
    assert("master"@[0] != "orient"@[0]);
    assert("name"@[0] != "view"@[0]);
    assert("name"@[0] != "mode"@[0]);
    assert("points"@[0] != "orient"@[0]);
    assert("direction"@[0] != "test_name"@[0]);
    assert("inst"@[0] != "view"@[0]);
    assert("inst"@[0] != "mode"@[0]);
    assert("path"@[0] != "view"@[0]);
    assert("path"@[0] != "mode"@[0]);
}

/// In the built-in schema a parameter is required exactly when it is not
/// one that a caller may leave out: libraries, cells, masters, names, nets,
/// points, directions, instances, paths, sessions and values are required;
/// views, coordinates, orientations, modes and test names are not.
#[verifier::rlimit(50)]
pub proof fn law_standard_required_params(k: int, j: int)
    requires
        0 <= k < STANDARD_METHOD_COUNT,
        0 <= j < standard_method(k).params.len(),
    ensures
        standard_method(k).params[j].required == !optional_param_name(
            standard_method(k).params[j].name,
        ),
{
    lemma_optional_names();
    if k == 0 {
        let ps = standard_method(k).params;
        if j == 0 {
            assert(ps[j].name == "lib"@ && ps[j].required == true);
        } else if j == 1 {
            assert(ps[j].name == "cell"@ && ps[j].required == true);
        } else if j == 2 {
            assert(ps[j].name == "view"@ && ps[j].required == false);
        }
    } else if k == 1 {
        let ps = standard_method(k).params;
        if j == 0 {
            assert(ps[j].name == "master"@ && ps[j].required == true);
        } else if j == 1 {
            assert(ps[j].name == "name"@ && ps[j].required == true);
        } else if j == 2 {
            assert(ps[j].name == "x"@ && ps[j].required == false);
        } else if j == 3 {
            assert(ps[j].name == "y"@ && ps[j].required == false);
        } else if j == 4 {
            assert(ps[j].name == "orient"@ && ps[j].required == false);
        }
    } else if k == 2 {
        let ps = standard_method(k).params;
        if j == 0 {
            assert(ps[j].name == "net"@ && ps[j].required == true);
        } else if j == 1 {
            assert(ps[j].name == "points"@ && ps[j].required == true);
        }
    } else if k == 3 {
        let ps = standard_method(k).params;
        if j == 0 {
            assert(ps[j].name == "net"@ && ps[j].required == true);
        } else if j == 1 {
            assert(ps[j].name == "x"@ && ps[j].required == false);
        } else if j == 2 {
            assert(ps[j].name == "y"@ && ps[j].required == false);
        }
    } else if k == 4 {
        let ps = standard_method(k).params;
        if j == 0 {
            assert(ps[j].name == "net"@ && ps[j].required == true);
        } else if j == 1 {
            assert(ps[j].name == "direction"@ && ps[j].required == true);
        } else if j == 2 {
            assert(ps[j].name == "x"@ && ps[j].required == false);
        } else if j == 3 {
            assert(ps[j].name == "y"@ && ps[j].required == false);
        }
    } else if k == 5 {
        let ps = standard_method(k).params;
    } else if k == 6 {
        let ps = standard_method(k).params;
    } else if k == 7 {
        let ps = standard_method(k).params;
    } else if k == 8 {
        let ps = standard_method(k).params;
    } else if k == 9 {
        let ps = standard_method(k).params;
    } else if k == 10 {
        let ps = standard_method(k).params;
        if j == 0 {
            assert(ps[j].name == "inst"@ && ps[j].required == true);
        }
    } else if k == 11 {
        let ps = standard_method(k).params;
    } else if k == 12 {
        let ps = standard_method(k).params;
        if j == 0 {
            assert(ps[j].name == "path"@ && ps[j].required == true);
        }
    } else if k == 13 {
        let ps = standard_method(k).params;
        if j == 0 {
            assert(ps[j].name == "lib"@ && ps[j].required == true);
        } else if j == 1 {
            assert(ps[j].name == "cell"@ && ps[j].required == true);
        } else if j == 2 {
            assert(ps[j].name == "view"@ && ps[j].required == false);
        } else if j == 3 {
            assert(ps[j].name == "mode"@ && ps[j].required == false);
        }
    } else if k == 14 {
        let ps = standard_method(k).params;
    } else if k == 15 {
        let ps = standard_method(k).params;
    } else if k == 16 {
        let ps = standard_method(k).params;
        if j == 0 {
            assert(ps[j].name == "lib"@ && ps[j].required == true);
        } else if j == 1 {
            assert(ps[j].name == "cell"@ && ps[j].required == true);
        } else if j == 2 {
            assert(ps[j].name == "view"@ && ps[j].required == false);
        }
    } else if k == 17 {
        let ps = standard_method(k).params;
        if j == 0 {
            assert(ps[j].name == "session"@ && ps[j].required == true);
        }
    } else if k == 18 {
        let ps = standard_method(k).params;
    } else if k == 19 {
        let ps = standard_method(k).params;
        if j == 0 {
            assert(ps[j].name == "name"@ && ps[j].required == true);
        } else if j == 1 {
            assert(ps[j].name == "value"@ && ps[j].required == true);
        }
    } else if k == 20 {
        let ps = standard_method(k).params;
        if j == 0 {
            assert(ps[j].name == "name"@ && ps[j].required == true);
        }
    } else if k == 21 {
        let ps = standard_method(k).params;
    } else if k == 22 {
        let ps = standard_method(k).params;
        if j == 0 {
            assert(ps[j].name == "session"@ && ps[j].required == true);
        }
    } else if k == 23 {
        let ps = standard_method(k).params;
        if j == 0 {
            assert(ps[j].name == "session"@ && ps[j].required == true);
        }
    } else if k == 24 {
        let ps = standard_method(k).params;
        if j == 0 {
            assert(ps[j].name == "session"@ && ps[j].required == true);
        } else if j == 1 {
            assert(ps[j].name == "path"@ && ps[j].required == true);
        } else if j == 2 {
            assert(ps[j].name == "test_name"@ && ps[j].required == false);
        }
    }
}

} // verus!
