//! The static registry of tool descriptors that `tools/list`
//! advertises: seven tools, each with its name, description and input
//! schema, matching field for field what the executor reads.

use vstd::prelude::*;
use vstd::string::StringExecFns;
use crate::json::{Jv, JsonValue, JsonArr, JsonObj, jv_of, jv_get};
use crate::tools::tool_names;

verus! {

broadcast use vstd::std_specs::vec::group_vec_axioms, vstd::seq::group_seq_axioms;

/// A plain schema property: a type and a description.
pub open spec fn sp_prop(t: Seq<char>, d: Seq<char>) -> Jv {
    Jv::Obj(seq![("type"@, Jv::Text(t)), ("description"@, Jv::Text(d))])
}

/// A schema property with an integer default.
pub open spec fn sp_prop_int(t: Seq<char>, d: Seq<char>, def: int) -> Jv {
    Jv::Obj(
        seq![
            ("type"@, Jv::Text(t)),
            ("description"@, Jv::Text(d)),
            ("default"@, Jv::Int(def)),
        ],
    )
}

/// The mouse-button property: an enumerated string defaulting to left.
pub open spec fn sp_button_prop(d: Seq<char>) -> Jv {
    Jv::Obj(
        seq![
            ("type"@, Jv::Text("string"@)),
            ("enum"@, Jv::Arr(seq![Jv::Text("left"@), Jv::Text("right"@), Jv::Text("middle"@)])),
            ("description"@, Jv::Text(d)),
            ("default"@, Jv::Text("left"@)),
        ],
    )
}

fn prop(t: &str, d: &str) -> (r: JsonValue)
    ensures
        jv_of(r) == sp_prop(t@, d@),
{
    let mut o = JsonObj::new();
    o.add("type", JsonValue::Text(String::from_str(t)));
    o.add("description", JsonValue::Text(String::from_str(d)));
    let r = o.done();
    proof {
        assert(o@ =~= seq![("type"@, Jv::Text(t@)), ("description"@, Jv::Text(d@))]);
        assert(jv_of(r) =~~= sp_prop(t@, d@));
    }
    r
}

fn prop_int(t: &str, d: &str, def: i64) -> (r: JsonValue)
    ensures
        jv_of(r) == sp_prop_int(t@, d@, def as int),
{
    let mut o = JsonObj::new();
    o.add("type", JsonValue::Text(String::from_str(t)));
    o.add("description", JsonValue::Text(String::from_str(d)));
    o.add("default", JsonValue::Int(def));
    let r = o.done();
    proof {
        assert(o@ =~= seq![
            ("type"@, Jv::Text(t@)),
            ("description"@, Jv::Text(d@)),
            ("default"@, Jv::Int(def as int)),
        ]);
        assert(jv_of(r) =~~= sp_prop_int(t@, d@, def as int));
    }
    r
}

fn button_prop(d: &str) -> (r: JsonValue)
    ensures
        jv_of(r) == sp_button_prop(d@),
{
    let mut e = JsonArr::new();
    e.add(JsonValue::Text(String::from_str("left")));
    e.add(JsonValue::Text(String::from_str("right")));
    e.add(JsonValue::Text(String::from_str("middle")));
    proof {
        assert(e@ =~= seq![Jv::Text("left"@), Jv::Text("right"@), Jv::Text("middle"@)]);
    }
    let mut o = JsonObj::new();
    o.add("type", JsonValue::Text(String::from_str("string")));
    o.add("enum", e.done());
    o.add("description", JsonValue::Text(String::from_str(d)));
    o.add("default", JsonValue::Text(String::from_str("left")));
    let r = o.done();
    proof {
        assert(o@ =~= seq![
            ("type"@, Jv::Text("string"@)),
            ("enum"@, Jv::Arr(seq![Jv::Text("left"@), Jv::Text("right"@), Jv::Text("middle"@)])),
            ("description"@, Jv::Text(d@)),
            ("default"@, Jv::Text("left"@)),
        ]);
        assert(jv_of(r) =~~= sp_button_prop(d@));
    }
    r
}

/// The `region` property of `screen_capture`: a nested object of four
/// required integer coordinates.
pub open spec fn sp_region_prop() -> Jv {
    Jv::Obj(
        seq![
            ("type"@, Jv::Text("object"@)),
            (
                "description"@,
                Jv::Text(
                    "Optional region to capture (coordinates relative to the selected screen). If not provided, captures entire screen."@,
                ),
            ),
            (
                "properties"@,
                Jv::Obj(
                    seq![
                        ("x"@, sp_prop("integer"@, "X coordinate of top-left corner"@)),
                        ("y"@, sp_prop("integer"@, "Y coordinate of top-left corner"@)),
                        ("width"@, sp_prop("integer"@, "Width of region"@)),
                        ("height"@, sp_prop("integer"@, "Height of region"@)),
                    ],
                ),
            ),
            (
                "required"@,
                Jv::Arr(
                    seq![
                        Jv::Text("x"@),
                        Jv::Text("y"@),
                        Jv::Text("width"@),
                        Jv::Text("height"@),
                    ],
                ),
            ),
        ],
    )
}

fn region_prop() -> (r: JsonValue)
    ensures
        jv_of(r) == sp_region_prop(),
{
    let mut props = JsonObj::new();
    props.add("x", prop("integer", "X coordinate of top-left corner"));
    props.add("y", prop("integer", "Y coordinate of top-left corner"));
    props.add("width", prop("integer", "Width of region"));
    props.add("height", prop("integer", "Height of region"));
    let ghost gprops = props@;
    let mut req = JsonArr::new();
    req.add(JsonValue::Text(String::from_str("x")));
    req.add(JsonValue::Text(String::from_str("y")));
    req.add(JsonValue::Text(String::from_str("width")));
    req.add(JsonValue::Text(String::from_str("height")));
    proof {
        assert(req@ =~= seq![
            Jv::Text("x"@),
            Jv::Text("y"@),
            Jv::Text("width"@),
            Jv::Text("height"@),
        ]);
    }
    let mut o = JsonObj::new();
    o.add("type", JsonValue::Text(String::from_str("object")));
    o.add(
        "description",
        JsonValue::Text(
            String::from_str(
                "Optional region to capture (coordinates relative to the selected screen). If not provided, captures entire screen.",
            ),
        ),
    );
    o.add("properties", props.done());
    o.add("required", req.done());
    let r = o.done();
    proof {
        assert(gprops =~= seq![
            ("x"@, sp_prop("integer"@, "X coordinate of top-left corner"@)),
            ("y"@, sp_prop("integer"@, "Y coordinate of top-left corner"@)),
            ("width"@, sp_prop("integer"@, "Width of region"@)),
            ("height"@, sp_prop("integer"@, "Height of region"@)),
        ]);
        assert(o@ =~= sp_region_prop()->Obj_0);
        assert(jv_of(r) =~~= sp_region_prop());
    }
    r
}

/// The `quality` property of `screen_capture`: accepted and bounded by
/// the schema, though the encoder does not yet use it.
pub open spec fn sp_quality_prop() -> Jv {
    Jv::Obj(
        seq![
            ("type"@, Jv::Text("integer"@)),
            ("description"@, Jv::Text("JPEG quality 1-100 (default: 80)"@)),
            ("default"@, Jv::Int(80)),
            ("minimum"@, Jv::Int(1)),
            ("maximum"@, Jv::Int(100)),
        ],
    )
}

fn quality_prop() -> (r: JsonValue)
    ensures
        jv_of(r) == sp_quality_prop(),
{
    let mut o = JsonObj::new();
    o.add("type", JsonValue::Text(String::from_str("integer")));
    o.add("description", JsonValue::Text(String::from_str("JPEG quality 1-100 (default: 80)")));
    o.add("default", JsonValue::Int(80));
    o.add("minimum", JsonValue::Int(1));
    o.add("maximum", JsonValue::Int(100));
    let r = o.done();
    proof {
        assert(o@ =~= sp_quality_prop()->Obj_0);
        assert(jv_of(r) =~~= sp_quality_prop());
    }
    r
}

/// The `modifiers` property of `key_tap`: an array of enumerated
/// modifier names.
pub open spec fn sp_modifiers_prop() -> Jv {
    Jv::Obj(
        seq![
            ("type"@, Jv::Text("array"@)),
            (
                "items"@,
                Jv::Obj(
                    seq![
                        ("type"@, Jv::Text("string"@)),
                        (
                            "enum"@,
                            Jv::Arr(
                                seq![
                                    Jv::Text("shift"@),
                                    Jv::Text("control"@),
                                    Jv::Text("alt"@),
                                    Jv::Text("meta"@),
                                ],
                            ),
                        ),
                    ],
                ),
            ),
            ("description"@, Jv::Text("Modifier keys to hold during the key press"@)),
        ],
    )
}

fn modifiers_prop() -> (r: JsonValue)
    ensures
        jv_of(r) == sp_modifiers_prop(),
{
    let mut e = JsonArr::new();
    e.add(JsonValue::Text(String::from_str("shift")));
    e.add(JsonValue::Text(String::from_str("control")));
    e.add(JsonValue::Text(String::from_str("alt")));
    e.add(JsonValue::Text(String::from_str("meta")));
    proof {
        assert(e@ =~= seq![
            Jv::Text("shift"@),
            Jv::Text("control"@),
            Jv::Text("alt"@),
            Jv::Text("meta"@),
        ]);
    }
    let mut items = JsonObj::new();
    items.add("type", JsonValue::Text(String::from_str("string")));
    items.add("enum", e.done());
    let ghost gitems = items@;
    let mut o = JsonObj::new();
    o.add("type", JsonValue::Text(String::from_str("array")));
    o.add("items", items.done());
    o.add(
        "description",
        JsonValue::Text(String::from_str("Modifier keys to hold during the key press")),
    );
    let r = o.done();
    proof {
        assert(gitems =~= seq![
            ("type"@, Jv::Text("string"@)),
            (
                "enum"@,
                Jv::Arr(
                    seq![
                        Jv::Text("shift"@),
                        Jv::Text("control"@),
                        Jv::Text("alt"@),
                        Jv::Text("meta"@),
                    ],
                ),
            ),
        ]);
        assert(o@ =~= sp_modifiers_prop()->Obj_0);
        assert(jv_of(r) =~~= sp_modifiers_prop());
    }
    r
}

/// A schema object without required fields.
pub open spec fn sp_schema(props: Seq<(Seq<char>, Jv)>) -> Jv {
    Jv::Obj(seq![("type"@, Jv::Text("object"@)), ("properties"@, Jv::Obj(props))])
}

/// A schema object with required fields.
pub open spec fn sp_schema_req(props: Seq<(Seq<char>, Jv)>, req: Seq<Jv>) -> Jv {
    Jv::Obj(
        seq![
            ("type"@, Jv::Text("object"@)),
            ("properties"@, Jv::Obj(props)),
            ("required"@, Jv::Arr(req)),
        ],
    )
}

fn schema(props: JsonObj) -> (r: JsonValue)
    ensures
        jv_of(r) == sp_schema(props@),
{
    let ghost gprops = props@;
    let mut o = JsonObj::new();
    o.add("type", JsonValue::Text(String::from_str("object")));
    o.add("properties", props.done());
    let r = o.done();
    proof {
        assert(o@ =~= sp_schema(gprops)->Obj_0);
        assert(jv_of(r) =~~= sp_schema(gprops));
    }
    r
}

fn schema_req(props: JsonObj, req: JsonArr) -> (r: JsonValue)
    ensures
        jv_of(r) == sp_schema_req(props@, req@),
{
    let ghost gprops = props@;
    let ghost greq = req@;
    let mut o = JsonObj::new();
    o.add("type", JsonValue::Text(String::from_str("object")));
    o.add("properties", props.done());
    o.add("required", req.done());
    let r = o.done();
    proof {
        assert(o@ =~= sp_schema_req(gprops, greq)->Obj_0);
        assert(jv_of(r) =~~= sp_schema_req(gprops, greq));
    }
    r
}

/// A tool descriptor: name, description, input schema.
pub open spec fn sp_tool(name: Seq<char>, d: Seq<char>, schema: Jv) -> Jv {
    Jv::Obj(
        seq![
            ("name"@, Jv::Text(name)),
            ("description"@, Jv::Text(d)),
            ("inputSchema"@, schema),
        ],
    )
}

fn tool(name: &str, d: &str, schema: JsonValue) -> (r: JsonValue)
    ensures
        jv_of(r) == sp_tool(name@, d@, jv_of(schema)),
{
    let ghost gschema = jv_of(schema);
    let mut o = JsonObj::new();
    o.add("name", JsonValue::Text(String::from_str(name)));
    o.add("description", JsonValue::Text(String::from_str(d)));
    o.add("inputSchema", schema);
    let r = o.done();
    proof {
        assert(o@ =~= sp_tool(name@, d@, gschema)->Obj_0);
        assert(jv_of(r) =~~= sp_tool(name@, d@, gschema));
    }
    r
}

/// The `screen_capture` descriptor.
pub open spec fn sp_screen_capture_tool() -> Jv {
    sp_tool(
        "screen_capture"@,
        "Capture a screenshot of a specific screen or region. Returns base64-encoded JPEG with automatic downscaling for efficiency. Use get_screen_info to list available screens."@,
        sp_schema(
            seq![
                (
                    "screen_index"@,
                    sp_prop_int(
                        "integer"@,
                        "Index of the screen to capture (default: 0, the primary screen). Use get_screen_info to see available screens."@,
                        0,
                    ),
                ),
                ("region"@, sp_region_prop()),
                (
                    "max_width"@,
                    sp_prop_int("integer"@, "Maximum width for downscaling (default: 1280)"@, 1280),
                ),
                (
                    "max_height"@,
                    sp_prop_int("integer"@, "Maximum height for downscaling (default: 720)"@, 720),
                ),
                ("quality"@, sp_quality_prop()),
            ],
        ),
    )
}

/// The `mouse_move` descriptor.
pub open spec fn sp_mouse_move_tool() -> Jv {
    sp_tool(
        "mouse_move"@,
        "Move the mouse cursor to a specific position"@,
        sp_schema_req(
            seq![
                ("x"@, sp_prop("number"@, "X coordinate"@)),
                ("y"@, sp_prop("number"@, "Y coordinate"@)),
            ],
            seq![Jv::Text("x"@), Jv::Text("y"@)],
        ),
    )
}

/// The `mouse_click` descriptor.
pub open spec fn sp_mouse_click_tool() -> Jv {
    sp_tool(
        "mouse_click"@,
        "Click the mouse at the current position or a specific location"@,
        sp_schema(
            seq![
                (
                    "x"@,
                    sp_prop(
                        "number"@,
                        "X coordinate (optional, uses current position if not provided)"@,
                    ),
                ),
                (
                    "y"@,
                    sp_prop(
                        "number"@,
                        "Y coordinate (optional, uses current position if not provided)"@,
                    ),
                ),
                ("button"@, sp_button_prop("Mouse button to click (default: left)"@)),
                (
                    "double_click"@,
                    Jv::Obj(
                        seq![
                            ("type"@, Jv::Text("boolean"@)),
                            (
                                "description"@,
                                Jv::Text("Whether to double-click (default: false)"@),
                            ),
                            ("default"@, Jv::Bool(false)),
                        ],
                    ),
                ),
            ],
        ),
    )
}

/// The `mouse_drag` descriptor.
pub open spec fn sp_mouse_drag_tool() -> Jv {
    sp_tool(
        "mouse_drag"@,
        "Drag the mouse from one position to another"@,
        sp_schema_req(
            seq![
                ("from_x"@, sp_prop("number"@, "Starting X coordinate"@)),
                ("from_y"@, sp_prop("number"@, "Starting Y coordinate"@)),
                ("to_x"@, sp_prop("number"@, "Ending X coordinate"@)),
                ("to_y"@, sp_prop("number"@, "Ending Y coordinate"@)),
                ("button"@, sp_button_prop("Mouse button to hold during drag (default: left)"@)),
                (
                    "duration_ms"@,
                    sp_prop_int(
                        "integer"@,
                        "Duration of drag in milliseconds (default: 500)"@,
                        500,
                    ),
                ),
            ],
            seq![Jv::Text("from_x"@), Jv::Text("from_y"@), Jv::Text("to_x"@), Jv::Text("to_y"@)],
        ),
    )
}

/// The `key_tap` descriptor.
pub open spec fn sp_key_tap_tool() -> Jv {
    sp_tool(
        "key_tap"@,
        "Press and release a single key, optionally with modifiers"@,
        sp_schema_req(
            seq![
                (
                    "key"@,
                    sp_prop(
                        "string"@,
                        "Key to press (e.g., 'a', 'Enter', 'Tab', 'F1', 'Escape')"@,
                    ),
                ),
                ("modifiers"@, sp_modifiers_prop()),
            ],
            seq![Jv::Text("key"@)],
        ),
    )
}

/// The `type_text` descriptor.
pub open spec fn sp_type_text_tool() -> Jv {
    sp_tool(
        "type_text"@,
        "Type a string of text character by character"@,
        sp_schema_req(
            seq![
                ("text"@, sp_prop("string"@, "Text to type"@)),
                (
                    "delay_ms"@,
                    sp_prop_int(
                        "integer"@,
                        "Delay between keystrokes in milliseconds (default: 20)"@,
                        20,
                    ),
                ),
            ],
            seq![Jv::Text("text"@)],
        ),
    )
}

/// The `get_screen_info` descriptor.
pub open spec fn sp_get_screen_info_tool() -> Jv {
    sp_tool(
        "get_screen_info"@,
        "Get information about available screens"@,
        sp_schema(Seq::empty()),
    )
}

/// The advertised descriptor array, in registry order.
pub open spec fn tools_value() -> Jv {
    Jv::Arr(
        seq![
            sp_screen_capture_tool(),
            sp_mouse_move_tool(),
            sp_mouse_click_tool(),
            sp_mouse_drag_tool(),
            sp_key_tap_tool(),
            sp_type_text_tool(),
            sp_get_screen_info_tool(),
        ],
    )
}

/// Every descriptor's `name` field is the registry name at its index:
/// the advertised list and the dispatch table name the same seven
/// tools, in the same order.
pub proof fn lemma_descriptor_names()
    ensures
        tools_value()->Arr_0.len() == tool_names().len(),
        forall|i: int|
            0 <= i < tool_names().len() ==> jv_get(#[trigger] tools_value()->Arr_0[i], "name"@)
                == Some(Jv::Text(tool_names()[i])),
{
    assert forall|i: int| 0 <= i < tool_names().len() implies jv_get(
        tools_value()->Arr_0[i],
        "name"@,
    ) == Some(Jv::Text(tool_names()[i])) by {
        if i == 0 {
            assert(jv_get(tools_value()->Arr_0[0], "name"@) == Some(
                Jv::Text("screen_capture"@),
            ));
        } else if i == 1 {
            assert(jv_get(tools_value()->Arr_0[1], "name"@) == Some(Jv::Text("mouse_move"@)));
        } else if i == 2 {
            assert(jv_get(tools_value()->Arr_0[2], "name"@) == Some(Jv::Text("mouse_click"@)));
        } else if i == 3 {
            assert(jv_get(tools_value()->Arr_0[3], "name"@) == Some(Jv::Text("mouse_drag"@)));
        } else if i == 4 {
            assert(jv_get(tools_value()->Arr_0[4], "name"@) == Some(Jv::Text("key_tap"@)));
        } else if i == 5 {
            assert(jv_get(tools_value()->Arr_0[5], "name"@) == Some(Jv::Text("type_text"@)));
        } else {
            assert(jv_get(tools_value()->Arr_0[6], "name"@) == Some(
                Jv::Text("get_screen_info"@),
            ));
        }
    }
}

/// The static tool table, exactly as `tools/list` advertises it.
pub fn get_tools() -> (r: JsonValue)
    ensures
        jv_of(r) == tools_value(),
{
    let mut sc_props = JsonObj::new();
    sc_props.add(
        "screen_index",
        prop_int(
            "integer",
            "Index of the screen to capture (default: 0, the primary screen). Use get_screen_info to see available screens.",
            0,
        ),
    );
    sc_props.add("region", region_prop());
    sc_props.add("max_width", prop_int("integer", "Maximum width for downscaling (default: 1280)", 1280));
    sc_props.add("max_height", prop_int("integer", "Maximum height for downscaling (default: 720)", 720));
    sc_props.add("quality", quality_prop());
    proof {
        assert(sc_props@ =~= sp_screen_capture_tool()->Obj_0[2].1->Obj_0[1].1->Obj_0);
    }
    let sc = tool(
        "screen_capture",
        "Capture a screenshot of a specific screen or region. Returns base64-encoded JPEG with automatic downscaling for efficiency. Use get_screen_info to list available screens.",
        schema(sc_props),
    );
    proof {
        assert(jv_of(sc) =~~= sp_screen_capture_tool());
    }

    let mut mm_props = JsonObj::new();
    mm_props.add("x", prop("number", "X coordinate"));
    mm_props.add("y", prop("number", "Y coordinate"));
    let mut mm_req = JsonArr::new();
    mm_req.add(JsonValue::Text(String::from_str("x")));
    mm_req.add(JsonValue::Text(String::from_str("y")));
    proof {
        assert(mm_props@ =~= seq![
            ("x"@, sp_prop("number"@, "X coordinate"@)),
            ("y"@, sp_prop("number"@, "Y coordinate"@)),
        ]);
        assert(mm_req@ =~= seq![Jv::Text("x"@), Jv::Text("y"@)]);
    }
    let mm = tool(
        "mouse_move",
        "Move the mouse cursor to a specific position",
        schema_req(mm_props, mm_req),
    );
    proof {
        assert(jv_of(mm) =~~= sp_mouse_move_tool());
    }

    let mut mc_dbl = JsonObj::new();
    mc_dbl.add("type", JsonValue::Text(String::from_str("boolean")));
    mc_dbl.add(
        "description",
        JsonValue::Text(String::from_str("Whether to double-click (default: false)")),
    );
    mc_dbl.add("default", JsonValue::Bool(false));
    let ghost gdbl = mc_dbl@;
    let mut mc_props = JsonObj::new();
    mc_props.add(
        "x",
        prop("number", "X coordinate (optional, uses current position if not provided)"),
    );
    mc_props.add(
        "y",
        prop("number", "Y coordinate (optional, uses current position if not provided)"),
    );
    mc_props.add("button", button_prop("Mouse button to click (default: left)"));
    mc_props.add("double_click", mc_dbl.done());
    proof {
        assert(gdbl =~= seq![
            ("type"@, Jv::Text("boolean"@)),
            ("description"@, Jv::Text("Whether to double-click (default: false)"@)),
            ("default"@, Jv::Bool(false)),
        ]);
        assert(mc_props@ =~= sp_mouse_click_tool()->Obj_0[2].1->Obj_0[1].1->Obj_0);
    }
    let mc = tool(
        "mouse_click",
        "Click the mouse at the current position or a specific location",
        schema(mc_props),
    );
    proof {
        assert(jv_of(mc) =~~= sp_mouse_click_tool());
    }

    let mut md_props = JsonObj::new();
    md_props.add("from_x", prop("number", "Starting X coordinate"));
    md_props.add("from_y", prop("number", "Starting Y coordinate"));
    md_props.add("to_x", prop("number", "Ending X coordinate"));
    md_props.add("to_y", prop("number", "Ending Y coordinate"));
    md_props.add("button", button_prop("Mouse button to hold during drag (default: left)"));
    md_props.add(
        "duration_ms",
        prop_int("integer", "Duration of drag in milliseconds (default: 500)", 500),
    );
    let mut md_req = JsonArr::new();
    md_req.add(JsonValue::Text(String::from_str("from_x")));
    md_req.add(JsonValue::Text(String::from_str("from_y")));
    md_req.add(JsonValue::Text(String::from_str("to_x")));
    md_req.add(JsonValue::Text(String::from_str("to_y")));
    proof {
        assert(md_props@ =~= sp_mouse_drag_tool()->Obj_0[2].1->Obj_0[1].1->Obj_0);
        assert(md_req@ =~= seq![
            Jv::Text("from_x"@),
            Jv::Text("from_y"@),
            Jv::Text("to_x"@),
            Jv::Text("to_y"@),
        ]);
    }
    let md = tool(
        "mouse_drag",
        "Drag the mouse from one position to another",
        schema_req(md_props, md_req),
    );
    proof {
        assert(jv_of(md) =~~= sp_mouse_drag_tool());
    }

    let mut kt_props = JsonObj::new();
    kt_props.add(
        "key",
        prop("string", "Key to press (e.g., 'a', 'Enter', 'Tab', 'F1', 'Escape')"),
    );
    kt_props.add("modifiers", modifiers_prop());
    let mut kt_req = JsonArr::new();
    kt_req.add(JsonValue::Text(String::from_str("key")));
    proof {
        assert(kt_props@ =~= sp_key_tap_tool()->Obj_0[2].1->Obj_0[1].1->Obj_0);
        assert(kt_req@ =~= seq![Jv::Text("key"@)]);
    }
    let kt = tool(
        "key_tap",
        "Press and release a single key, optionally with modifiers",
        schema_req(kt_props, kt_req),
    );
    proof {
        assert(jv_of(kt) =~~= sp_key_tap_tool());
    }

    let mut tt_props = JsonObj::new();
    tt_props.add("text", prop("string", "Text to type"));
    tt_props.add(
        "delay_ms",
        prop_int("integer", "Delay between keystrokes in milliseconds (default: 20)", 20),
    );
    let mut tt_req = JsonArr::new();
    tt_req.add(JsonValue::Text(String::from_str("text")));
    proof {
        assert(tt_props@ =~= sp_type_text_tool()->Obj_0[2].1->Obj_0[1].1->Obj_0);
        assert(tt_req@ =~= seq![Jv::Text("text"@)]);
    }
    let tt = tool(
        "type_text",
        "Type a string of text character by character",
        schema_req(tt_props, tt_req),
    );
    proof {
        assert(jv_of(tt) =~~= sp_type_text_tool());
    }

    let gsi_props = JsonObj::new();
    proof {
        assert(gsi_props@ =~= Seq::<(Seq<char>, Jv)>::empty());
    }
    let gsi = tool(
        "get_screen_info",
        "Get information about available screens",
        schema(gsi_props),
    );
    proof {
        assert(jv_of(gsi) =~~= sp_get_screen_info_tool());
    }

    let mut arr = JsonArr::new();
    arr.add(sc);
    arr.add(mm);
    arr.add(mc);
    arr.add(md);
    arr.add(kt);
    arr.add(tt);
    arr.add(gsi);
    let r = arr.done();
    proof {
        assert(arr@ =~= tools_value()->Arr_0);
        assert(jv_of(r) =~~= tools_value());
    }
    r
}

} // verus!
