//! The declarative UI tree: element types, the exact JSON text each element
//! serializes to, a verified emitter, and the fixed tree that `get_ui`
//! describes.
//!
//! Style payloads and other opaque JSON carried by an element are held as raw
//! JSON text in a `String` and emitted verbatim; the plugin never reads them.

use vstd::prelude::*;
use vstd::string::StringExecFns;
use crate::text::{bool_text, opt_quoted, opt_raw, quoted, push_bool, push_opt_quoted,
    push_opt_raw, push_quoted};

verus! {

broadcast use vstd::std_specs::vec::group_vec_axioms;

/// One choice of a select element.
pub struct SelectOption {
    pub value: String,
    pub label: String,
}

/// A node of the declarative UI tree, mirroring the host's tagged JSON shape.
#[allow(inconsistent_fields)]
pub enum UIElement {
    Container {
        id: Option<String>,
        direction: String,
        style: Option<String>,
        children: Vec<UIElement>,
    },
    Text { id: String, value: String, style: Option<String> },
    Button {
        id: String,
        label: String,
        on_click: String,
        disabled: Option<bool>,
        style: Option<String>,
    },
    Input {
        id: String,
        placeholder: Option<String>,
        value: Option<String>,
        input_type: Option<String>,
        on_change: Option<String>,
        style: Option<String>,
    },
    Select {
        id: String,
        options: Vec<SelectOption>,
        selected: Option<String>,
        on_change: Option<String>,
        style: Option<String>,
    },
    WasmUI { mount_script: String },
}

/// A rendered tree together with an opaque state snapshot (raw JSON text).
pub struct UIResponse {
    pub ui: UIElement,
    pub state: Option<String>,
}

/// An optional boolean: its JSON spelling when present, `null` otherwise.
pub open spec fn opt_bool_text(o: Option<bool>) -> Seq<char> {
    match o {
        Some(b) => bool_text(b),
        None => "null"@,
    }
}

/// The JSON text of one select option.
pub open spec fn option_text(o: SelectOption) -> Seq<char> {
    "{\"value\":"@ + quoted(o.value@) + ",\"label\":"@ + quoted(o.label@) + "}"@
}

/// The JSON texts of a sequence of select options, joined by commas.
pub open spec fn options_text(s: Seq<SelectOption>) -> Seq<char>
    decreases s.len(),
{
    if s.len() == 0 {
        Seq::empty()
    } else if s.len() == 1 {
        option_text(s[0])
    } else {
        options_text(s.drop_last()) + seq![','] + option_text(s.last())
    }
}

/// The JSON text of one UI element, exactly as the host expects it: a `type`
/// tag naming the variant, then the variant's fields in declaration order,
/// absent optional fields spelled `null`.
pub open spec fn element_text(e: UIElement) -> Seq<char>
    decreases e,
{
    match e {
        UIElement::Container { id, direction, style, children } => {
            proof {
                assert(decreases_to!(e => children));
                assert(decreases_to!(children => children@));
            }
            "{\"type\":\"container\",\"id\":"@ + opt_quoted(id.deep_view()) + ",\"direction\":"@
                + quoted(direction@) + ",\"style\":"@ + opt_raw(style.deep_view())
                + ",\"children\":["@ + elements_text(children@) + "]}"@
        },
        UIElement::Text { id, value, style } => {
            "{\"type\":\"text\",\"id\":"@ + quoted(id@) + ",\"value\":"@ + quoted(value@)
                + ",\"style\":"@ + opt_raw(style.deep_view()) + "}"@
        },
        UIElement::Button { id, label, on_click, disabled, style } => {
            "{\"type\":\"button\",\"id\":"@ + quoted(id@) + ",\"label\":"@ + quoted(label@)
                + ",\"onClick\":"@ + quoted(on_click@) + ",\"disabled\":"@
                + opt_bool_text(disabled) + ",\"style\":"@ + opt_raw(style.deep_view()) + "}"@
        },
        UIElement::Input { id, placeholder, value, input_type, on_change, style } => {
            "{\"type\":\"input\",\"id\":"@ + quoted(id@) + ",\"placeholder\":"@
                + opt_quoted(placeholder.deep_view()) + ",\"value\":"@
                + opt_quoted(value.deep_view()) + ",\"input_type\":"@
                + opt_quoted(input_type.deep_view()) + ",\"onChange\":"@
                + opt_quoted(on_change.deep_view()) + ",\"style\":"@
                + opt_raw(style.deep_view()) + "}"@
        },
        UIElement::Select { id, options, selected, on_change, style } => {
            "{\"type\":\"select\",\"id\":"@ + quoted(id@) + ",\"options\":["@
                + options_text(options@) + "],\"selected\":"@ + opt_quoted(selected.deep_view())
                + ",\"onChange\":"@ + opt_quoted(on_change.deep_view()) + ",\"style\":"@
                + opt_raw(style.deep_view()) + "}"@
        },
        UIElement::WasmUI { mount_script } => {
            "{\"type\":\"wasm\",\"mount_script\":"@ + quoted(mount_script@) + "}"@
        },
    }
}

/// The JSON texts of a sequence of UI elements, joined by commas.
pub open spec fn elements_text(s: Seq<UIElement>) -> Seq<char>
    decreases s,
{
    if s.len() == 0 {
        Seq::empty()
    } else if s.len() == 1 {
        element_text(s[0])
    } else {
        elements_text(s.drop_last()) + seq![','] + element_text(s.last())
    }
}

/// The JSON text of a rendered tree with its optional state snapshot.
pub open spec fn ui_response_text(r: UIResponse) -> Seq<char> {
    "{\"ui\":"@ + element_text(r.ui) + ",\"state\":"@ + opt_raw(r.state.deep_view()) + "}"@
}

/// Appends an optional boolean, or `null`.
fn push_opt_bool(out: &mut String, o: &Option<bool>)
    ensures
        final(out)@ == old(out)@ + opt_bool_text(*o),
{
    match o {
        Some(b) => {
            push_bool(out, *b);
        },
        None => {
            out.append("null");
        },
    }
}

/// Appends the JSON text of one select option.
fn push_option(out: &mut String, o: &SelectOption)
    ensures
        final(out)@ == old(out)@ + option_text(*o),
{
    out.append("{\"value\":");
    push_quoted(out, o.value.as_str());
    out.append(",\"label\":");
    push_quoted(out, o.label.as_str());
    out.append("}");
    proof {
        assert(final(out)@ =~= old(out)@ + option_text(*o));
    }
}

/// Appends the comma-joined JSON texts of the select options.
fn push_options(out: &mut String, options: &Vec<SelectOption>)
    ensures
        final(out)@ == old(out)@ + options_text(options@),
{
    proof {
        assert(options@.take(0) =~= Seq::<SelectOption>::empty());
    }
    let mut i: usize = 0;
    while i < options.len()
        invariant
            i <= options.len(),
            out@ == old(out)@ + options_text(options@.take(i as int)),
        decreases options.len() - i,
    {
        if i > 0 {
            crate::text::push_char(out, ',');
        }
        push_option(out, &options[i]);
        proof {
            assert(options@.take(i + 1).drop_last() =~= options@.take(i as int));
            assert(options@.take(i + 1).last() == options@[i as int]);
            assert(out@ =~= old(out)@ + options_text(options@.take(i + 1)));
        }
        i = i + 1;
    }
    proof {
        assert(options@.take(options@.len() as int) =~= options@);
    }
}

/// Appends the JSON text of one UI element, recursing through containers.
#[verifier::rlimit(60)]
pub fn push_element(out: &mut String, e: &UIElement)
    ensures
        final(out)@ == old(out)@ + element_text(*e),
    decreases *e,
{
    match e {
        UIElement::Container { id, direction, style, children } => {
            out.append("{\"type\":\"container\",\"id\":");
            push_opt_quoted(out, id);
            out.append(",\"direction\":");
            push_quoted(out, direction.as_str());
            out.append(",\"style\":");
            push_opt_raw(out, style);
            out.append(",\"children\":[");
            let ghost mid: Seq<char> = out@;
            proof {
                assert(children@.take(0) =~= Seq::<UIElement>::empty());
            }
            let mut i: usize = 0;
            while i < children.len()
                invariant
                    i <= children.len(),
                    *e == (UIElement::Container {
                        id: *id,
                        direction: *direction,
                        style: *style,
                        children: *children,
                    }),
                    out@ == mid + elements_text(children@.take(i as int)),
                decreases children.len() - i,
            {
                if i > 0 {
                    crate::text::push_char(out, ',');
                }
                proof {
                    assert(*children == (*e)->Container_children);
                    assert(decreases_to!(*e => (*e)->Container_children));
                    assert(decreases_to!(*children => children@));
                    assert(decreases_to!(children@ => children@[i as int]));
                }
                push_element(out, &children[i]);
                proof {
                    assert(children@.take(i + 1).drop_last() =~= children@.take(i as int));
                    assert(children@.take(i + 1).last() == children@[i as int]);
                    assert(out@ =~= mid + elements_text(children@.take(i + 1)));
                }
                i = i + 1;
            }
            out.append("]}");
            proof {
                assert(children@.take(children@.len() as int) =~= children@);
                assert(final(out)@ =~= old(out)@ + element_text(*e));
            }
        },
        UIElement::Text { id, value, style } => {
            push_text_element(out, id, value, style);
            proof {
                assert(final(out)@ == old(out)@ + element_text(*e));
            }
        },
        UIElement::Button { id, label, on_click, disabled, style } => {
            push_button_element(out, id, label, on_click, disabled, style);
            proof {
                assert(final(out)@ == old(out)@ + element_text(*e));
            }
        },
        UIElement::Input { id, placeholder, value, input_type, on_change, style } => {
            push_input_element(out, id, placeholder, value, input_type, on_change, style);
            proof {
                assert(final(out)@ == old(out)@ + element_text(*e));
            }
        },
        UIElement::Select { id, options, selected, on_change, style } => {
            push_select_element(out, id, options, selected, on_change, style);
            proof {
                assert(final(out)@ == old(out)@ + element_text(*e));
            }
        },
        UIElement::WasmUI { mount_script } => {
            out.append("{\"type\":\"wasm\",\"mount_script\":");
            push_quoted(out, mount_script.as_str());
            out.append("}");
            proof {
                assert(final(out)@ =~= old(out)@ + element_text(*e));
            }
        },
    }
}

/// Appends the JSON text of a text element.
fn push_text_element(out: &mut String, id: &String, value: &String, style: &Option<String>)
    ensures
        final(out)@ == old(out)@ + ("{\"type\":\"text\",\"id\":"@ + quoted(id@) + ",\"value\":"@
            + quoted(value@) + ",\"style\":"@ + opt_raw(style.deep_view()) + "}"@),
{
    out.append("{\"type\":\"text\",\"id\":");
    push_quoted(out, id.as_str());
    out.append(",\"value\":");
    push_quoted(out, value.as_str());
    out.append(",\"style\":");
    push_opt_raw(out, style);
    out.append("}");
    proof {
        assert(final(out)@ =~= old(out)@ + ("{\"type\":\"text\",\"id\":"@ + quoted(id@)
            + ",\"value\":"@ + quoted(value@) + ",\"style\":"@ + opt_raw(style.deep_view())
            + "}"@));
    }
}

/// Appends the JSON text of a button element.
fn push_button_element(
    out: &mut String,
    id: &String,
    label: &String,
    on_click: &String,
    disabled: &Option<bool>,
    style: &Option<String>,
)
    ensures
        final(out)@ == old(out)@ + ("{\"type\":\"button\",\"id\":"@ + quoted(id@) + ",\"label\":"@
            + quoted(label@) + ",\"onClick\":"@ + quoted(on_click@) + ",\"disabled\":"@
            + opt_bool_text(*disabled) + ",\"style\":"@ + opt_raw(style.deep_view()) + "}"@),
{
    out.append("{\"type\":\"button\",\"id\":");
    push_quoted(out, id.as_str());
    out.append(",\"label\":");
    push_quoted(out, label.as_str());
    out.append(",\"onClick\":");
    push_quoted(out, on_click.as_str());
    out.append(",\"disabled\":");
    push_opt_bool(out, disabled);
    out.append(",\"style\":");
    push_opt_raw(out, style);
    out.append("}");
    proof {
        assert(final(out)@ =~= old(out)@ + ("{\"type\":\"button\",\"id\":"@ + quoted(id@)
            + ",\"label\":"@ + quoted(label@) + ",\"onClick\":"@ + quoted(on_click@)
            + ",\"disabled\":"@ + opt_bool_text(*disabled) + ",\"style\":"@
            + opt_raw(style.deep_view()) + "}"@));
    }
}

/// Appends the JSON text of an input element.
#[verifier::rlimit(30)]
fn push_input_element(
    out: &mut String,
    id: &String,
    placeholder: &Option<String>,
    value: &Option<String>,
    input_type: &Option<String>,
    on_change: &Option<String>,
    style: &Option<String>,
)
    ensures
        final(out)@ == old(out)@ + ("{\"type\":\"input\",\"id\":"@ + quoted(id@)
            + ",\"placeholder\":"@ + opt_quoted(placeholder.deep_view()) + ",\"value\":"@
            + opt_quoted(value.deep_view()) + ",\"input_type\":"@
            + opt_quoted(input_type.deep_view()) + ",\"onChange\":"@
            + opt_quoted(on_change.deep_view()) + ",\"style\":"@ + opt_raw(style.deep_view())
            + "}"@),
{
    out.append("{\"type\":\"input\",\"id\":");
    push_quoted(out, id.as_str());
    out.append(",\"placeholder\":");
    push_opt_quoted(out, placeholder);
    out.append(",\"value\":");
    push_opt_quoted(out, value);
    out.append(",\"input_type\":");
    push_opt_quoted(out, input_type);
    out.append(",\"onChange\":");
    push_opt_quoted(out, on_change);
    out.append(",\"style\":");
    push_opt_raw(out, style);
    out.append("}");
    proof {
        assert(final(out)@ =~= old(out)@ + ("{\"type\":\"input\",\"id\":"@ + quoted(id@)
            + ",\"placeholder\":"@ + opt_quoted(placeholder.deep_view()) + ",\"value\":"@
            + opt_quoted(value.deep_view()) + ",\"input_type\":"@
            + opt_quoted(input_type.deep_view()) + ",\"onChange\":"@
            + opt_quoted(on_change.deep_view()) + ",\"style\":"@ + opt_raw(style.deep_view())
            + "}"@));
    }
}

/// Appends the JSON text of a select element.
#[verifier::rlimit(30)]
fn push_select_element(
    out: &mut String,
    id: &String,
    options: &Vec<SelectOption>,
    selected: &Option<String>,
    on_change: &Option<String>,
    style: &Option<String>,
)
    ensures
        final(out)@ == old(out)@ + ("{\"type\":\"select\",\"id\":"@ + quoted(id@)
            + ",\"options\":["@ + options_text(options@) + "],\"selected\":"@
            + opt_quoted(selected.deep_view()) + ",\"onChange\":"@
            + opt_quoted(on_change.deep_view()) + ",\"style\":"@ + opt_raw(style.deep_view())
            + "}"@),
{
    out.append("{\"type\":\"select\",\"id\":");
    push_quoted(out, id.as_str());
    out.append(",\"options\":[");
    push_options(out, options);
    out.append("],\"selected\":");
    push_opt_quoted(out, selected);
    out.append(",\"onChange\":");
    push_opt_quoted(out, on_change);
    out.append(",\"style\":");
    push_opt_raw(out, style);
    out.append("}");
    proof {
        assert(final(out)@ =~= old(out)@ + ("{\"type\":\"select\",\"id\":"@ + quoted(id@)
            + ",\"options\":["@ + options_text(options@) + "],\"selected\":"@
            + opt_quoted(selected.deep_view()) + ",\"onChange\":"@
            + opt_quoted(on_change.deep_view()) + ",\"style\":"@ + opt_raw(style.deep_view())
            + "}"@));
    }
}

/// Serializes one UI element to its JSON text.
pub fn ui_element_json(e: &UIElement) -> (out: String)
    ensures
        out@ == element_text(*e),
{
    let mut out = String::new();
    push_element(&mut out, e);
    proof {
        assert(out@ =~= element_text(*e));
    }
    out
}

/// The JSON text of the welcome text node of the fixed tree.
pub open spec fn welcome_text() -> Seq<char> {
    "{\"type\":\"text\",\"id\":"@ + quoted("welcome"@) + ",\"value\":"@
        + quoted("Welcome to the Example Plugin!"@) + ",\"style\":"@
        + opt_raw(None::<Seq<char>>) + "}"@
}

/// The JSON text of the input node of the fixed tree.
pub open spec fn input_node_text() -> Seq<char> {
    "{\"type\":\"input\",\"id\":"@ + quoted("input"@) + ",\"placeholder\":"@
        + opt_quoted(Some("Type something..."@)) + ",\"value\":"@ + opt_quoted(None::<Seq<char>>)
        + ",\"input_type\":"@ + opt_quoted(Some("text"@)) + ",\"onChange\":"@
        + opt_quoted(Some("handle_input_change"@)) + ",\"style\":"@ + opt_raw(None::<Seq<char>>)
        + "}"@
}

/// The JSON text of the mode select node of the fixed tree.
pub open spec fn select_node_text() -> Seq<char> {
    "{\"type\":\"select\",\"id\":"@ + quoted("mode"@) + ",\"options\":["@
        + ("{\"value\":"@ + quoted("light"@) + ",\"label\":"@ + quoted("Light Mode"@) + "}"@)
        + seq![','] + ("{\"value\":"@ + quoted("dark"@) + ",\"label\":"@ + quoted("Dark Mode"@)
        + "}"@) + "],\"selected\":"@ + opt_quoted(Some("light"@)) + ",\"onChange\":"@
        + opt_quoted(Some("handle_select_change"@)) + ",\"style\":"@ + opt_raw(None::<Seq<char>>)
        + "}"@
}

/// The JSON text of the button node of the fixed tree.
pub open spec fn button_node_text() -> Seq<char> {
    "{\"type\":\"button\",\"id\":"@ + quoted("click"@) + ",\"label\":"@ + quoted("Click Me"@)
        + ",\"onClick\":"@ + quoted("handle_click"@) + ",\"disabled\":"@
        + opt_bool_text(None::<bool>) + ",\"style\":"@ + opt_raw(None::<Seq<char>>) + "}"@
}

/// The JSON text of the fixed tree that `get_ui` renders: a column container
/// holding the welcome text, an input, a mode select and a button.
pub open spec fn default_ui_text() -> Seq<char> {
    "{\"type\":\"container\",\"id\":"@ + opt_quoted(Some("root"@)) + ",\"direction\":"@
        + quoted("column"@) + ",\"style\":"@ + opt_raw(None::<Seq<char>>) + ",\"children\":["@
        + (welcome_text() + seq![','] + input_node_text() + seq![','] + select_node_text()
        + seq![','] + button_node_text()) + "]}"@
}

/// Builds the fixed UI tree.
#[verifier::rlimit(60)]
pub fn build_ui() -> (e: UIElement)
    ensures
        element_text(e) == default_ui_text(),
{
    let welcome = UIElement::Text {
        id: String::from_str("welcome"),
        value: String::from_str("Welcome to the Example Plugin!"),
        style: None,
    };
    let ghost g_welcome = welcome;
    proof {
        assert(element_text(g_welcome) == welcome_text());
    }
    let input = UIElement::Input {
        id: String::from_str("input"),
        placeholder: Some(String::from_str("Type something...")),
        value: None,
        input_type: Some(String::from_str("text")),
        on_change: Some(String::from_str("handle_input_change")),
        style: None,
    };
    let ghost g_input = input;
    proof {
        assert(element_text(g_input) == input_node_text());
    }
    let light = SelectOption {
        value: String::from_str("light"),
        label: String::from_str("Light Mode"),
    };
    let ghost g_light = light;
    let dark = SelectOption {
        value: String::from_str("dark"),
        label: String::from_str("Dark Mode"),
    };
    let ghost g_dark = dark;
    let mut options: Vec<SelectOption> = Vec::new();
    options.push(light);
    options.push(dark);
    proof {
        assert(options@ =~= seq![g_light, g_dark]);
        assert(options@.drop_last() =~= seq![g_light]);
        assert(options_text(seq![g_light]) == option_text(g_light));
        assert(options_text(options@) == option_text(g_light) + seq![','] + option_text(g_dark));
    }
    let select = UIElement::Select {
        id: String::from_str("mode"),
        options,
        selected: Some(String::from_str("light")),
        on_change: Some(String::from_str("handle_select_change")),
        style: None,
    };
    let ghost g_select = select;
    proof {
        assert(element_text(g_select) == select_node_text());
    }
    let button = UIElement::Button {
        id: String::from_str("click"),
        label: String::from_str("Click Me"),
        on_click: String::from_str("handle_click"),
        disabled: None,
        style: None,
    };
    let ghost g_button = button;
    proof {
        assert(element_text(g_button) == button_node_text());
    }
    let mut children: Vec<UIElement> = Vec::new();
    children.push(welcome);
    children.push(input);
    children.push(select);
    children.push(button);
    proof {
        let cs = seq![g_welcome, g_input, g_select, g_button];
        assert(children@ =~= cs);
        assert(cs.drop_last() =~= seq![g_welcome, g_input, g_select]);
        assert(seq![g_welcome, g_input, g_select].drop_last() =~= seq![g_welcome, g_input]);
        assert(seq![g_welcome, g_input].drop_last() =~= seq![g_welcome]);
        assert(elements_text(seq![g_welcome]) == element_text(g_welcome));
        assert(elements_text(seq![g_welcome, g_input]) == element_text(g_welcome) + seq![',']
            + element_text(g_input));
        assert(elements_text(seq![g_welcome, g_input, g_select]) == element_text(g_welcome)
            + seq![','] + element_text(g_input) + seq![','] + element_text(g_select));
        assert(elements_text(cs) == element_text(g_welcome) + seq![','] + element_text(g_input)
            + seq![','] + element_text(g_select) + seq![','] + element_text(g_button));
        assert(elements_text(cs) =~= welcome_text() + seq![','] + input_node_text() + seq![',']
            + select_node_text() + seq![','] + button_node_text());
    }
    let e = UIElement::Container {
        id: Some(String::from_str("root")),
        direction: String::from_str("column"),
        style: None,
        children,
    };
    proof {
        assert(element_text(e) == default_ui_text());
    }
    e
}

/// Renders the fixed UI tree as JSON text; the same text on every call.
pub fn get_ui() -> (r: String)
    ensures
        r@ == default_ui_text(),
{
    let e = build_ui();
    ui_element_json(&e)
}

/// Serializes a rendered tree with its optional state snapshot.
pub fn ui_response_json(r: &UIResponse) -> (out: String)
    ensures
        out@ == ui_response_text(*r),
{
    let mut out = String::new();
    out.append("{\"ui\":");
    push_element(&mut out, &r.ui);
    out.append(",\"state\":");
    push_opt_raw(&mut out, &r.state);
    out.append("}");
    proof {
        assert(out@ =~= ui_response_text(*r));
    }
    out
}

} // verus!
