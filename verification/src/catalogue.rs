//! The typed call catalogue's payload builders. Each remote operation sends
//! a flat payload object; each builder's contract pins that object's model
//! down field by field, so the envelope a session sends is known exactly.

use vstd::prelude::*;
use vstd::string::StringExecFns;
use crate::domain::{FindPicOptions, Point, Rect};
use crate::wire::{lemma_obj_model_push, obj_model, wf_obj, wf_scalar, Payload, Scalar, ScalarModel};

verus! {

/// Appends one field to a payload under construction.
fn push_field(fields: &mut Vec<(String, Scalar)>, k: &str, s: Scalar)
    ensures
        obj_model(final(fields)@) == obj_model(old(fields)@).insert(k@, s@),
{
    let key = String::from_str(k);
    let ghost snap = fields@;
    proof {
        lemma_obj_model_push(snap, key, s);
    }
    fields.push((key, s));
}

/// An empty payload, for operations that take no parameters.
pub fn left_click_payload() -> (p: Payload)
    ensures
        p@ == Map::<Seq<char>, ScalarModel>::empty(),
        wf_obj(p@),
{
    let fields: Vec<(String, Scalar)> = Vec::new();
    proof {
        assert(obj_model(fields@) =~= Map::<Seq<char>, ScalarModel>::empty());
    }
    Payload { fields }
}

/// The payload of a key press: the virtual-key code.
pub fn key_press_payload(vk_code: u32) -> (p: Payload)
    ensures
        p@ == Map::<Seq<char>, ScalarModel>::empty().insert(
            "vk_code"@,
            ScalarModel::Int(vk_code as int),
        ),
        wf_obj(p@),
{
    let mut fields: Vec<(String, Scalar)> = Vec::new();
    proof {
        assert(obj_model(fields@) =~= Map::<Seq<char>, ScalarModel>::empty());
    }
    push_field(&mut fields, "vk_code", Scalar::UInt(vk_code as u64));
    let p = Payload { fields };
    proof {
        assert forall|k: Seq<char>| p@.contains_key(k) implies wf_scalar(#[trigger] p@[k]) by {
            assert(k == "vk_code"@);
        }
    }
    p
}

/// The payload of typing a string of keys with a delay between them.
pub fn key_press_str_payload(key_str: &str, delay: u32) -> (p: Payload)
    ensures
        p@ == Map::<Seq<char>, ScalarModel>::empty().insert(
            "key_str"@,
            ScalarModel::Text(key_str@),
        ).insert("delay"@, ScalarModel::Int(delay as int)),
        wf_obj(p@),
{
    let mut fields: Vec<(String, Scalar)> = Vec::new();
    proof {
        assert(obj_model(fields@) =~= Map::<Seq<char>, ScalarModel>::empty());
    }
    push_field(&mut fields, "key_str", Scalar::Text(String::from_str(key_str)));
    push_field(&mut fields, "delay", Scalar::UInt(delay as u64));
    let p = Payload { fields };
    proof {
        assert forall|k: Seq<char>| p@.contains_key(k) implies wf_scalar(#[trigger] p@[k]) by {
            assert(k == "key_str"@ || k == "delay"@);
        }
    }
    p
}

/// The payload of binding a window: the window handle, the capture, mouse
/// and keypad modes, and the binding mode.
pub fn bind_window_payload(hwnd: u64, display: &str, mouse: &str, keypad: &str, mode: u32) -> (p:
    Payload)
    ensures
        p@ == Map::<Seq<char>, ScalarModel>::empty().insert("hwnd"@, ScalarModel::Int(hwnd as int))
            .insert("display"@, ScalarModel::Text(display@)).insert(
            "mouse"@,
            ScalarModel::Text(mouse@),
        ).insert("keypad"@, ScalarModel::Text(keypad@)).insert(
            "mode"@,
            ScalarModel::Int(mode as int),
        ),
        wf_obj(p@),
{
    let mut fields: Vec<(String, Scalar)> = Vec::new();
    proof {
        assert(obj_model(fields@) =~= Map::<Seq<char>, ScalarModel>::empty());
    }
    push_field(&mut fields, "hwnd", Scalar::UInt(hwnd));
    push_field(&mut fields, "display", Scalar::Text(String::from_str(display)));
    push_field(&mut fields, "mouse", Scalar::Text(String::from_str(mouse)));
    push_field(&mut fields, "keypad", Scalar::Text(String::from_str(keypad)));
    push_field(&mut fields, "mode", Scalar::UInt(mode as u64));
    let p = Payload { fields };
    proof {
        assert forall|k: Seq<char>| p@.contains_key(k) implies wf_scalar(#[trigger] p@[k]) by {
            assert(k == "hwnd"@ || k == "display"@ || k == "mouse"@ || k == "keypad"@ || k
                == "mode"@);
        }
    }
    p
}

/// The payload of enumerating windows under a parent by class, title and
/// filter flags.
pub fn enum_window_payload(parent: u64, class: &str, title: &str, filter: u32) -> (p: Payload)
    ensures
        p@ == Map::<Seq<char>, ScalarModel>::empty().insert(
            "parent"@,
            ScalarModel::Int(parent as int),
        ).insert("class"@, ScalarModel::Text(class@)).insert(
            "title"@,
            ScalarModel::Text(title@),
        ).insert("filter"@, ScalarModel::Int(filter as int)),
        wf_obj(p@),
{
    let mut fields: Vec<(String, Scalar)> = Vec::new();
    proof {
        assert(obj_model(fields@) =~= Map::<Seq<char>, ScalarModel>::empty());
    }
    push_field(&mut fields, "parent", Scalar::UInt(parent));
    push_field(&mut fields, "class", Scalar::Text(String::from_str(class)));
    push_field(&mut fields, "title", Scalar::Text(String::from_str(title)));
    push_field(&mut fields, "filter", Scalar::UInt(filter as u64));
    let p = Payload { fields };
    proof {
        assert forall|k: Seq<char>| p@.contains_key(k) implies wf_scalar(#[trigger] p@[k]) by {
            assert(k == "parent"@ || k == "class"@ || k == "title"@ || k == "filter"@);
        }
    }
    p
}

/// The payload of finding a child window by parent, class and title.
pub fn find_window_ex_payload(parent: u64, class: &str, title: &str) -> (p: Payload)
    ensures
        p@ == Map::<Seq<char>, ScalarModel>::empty().insert(
            "parent"@,
            ScalarModel::Int(parent as int),
        ).insert("class"@, ScalarModel::Text(class@)).insert("title"@, ScalarModel::Text(title@)),
        wf_obj(p@),
{
    let mut fields: Vec<(String, Scalar)> = Vec::new();
    proof {
        assert(obj_model(fields@) =~= Map::<Seq<char>, ScalarModel>::empty());
    }
    push_field(&mut fields, "parent", Scalar::UInt(parent));
    push_field(&mut fields, "class", Scalar::Text(String::from_str(class)));
    push_field(&mut fields, "title", Scalar::Text(String::from_str(title)));
    let p = Payload { fields };
    proof {
        assert forall|k: Seq<char>| p@.contains_key(k) implies wf_scalar(#[trigger] p@[k]) by {
            assert(k == "parent"@ || k == "class"@ || k == "title"@);
        }
    }
    p
}

/// The payload of finding a top-level window by class and title.
pub fn find_window_payload(class: &str, title: &str) -> (p: Payload)
    ensures
        p@ == Map::<Seq<char>, ScalarModel>::empty().insert(
            "class"@,
            ScalarModel::Text(class@),
        ).insert("title"@, ScalarModel::Text(title@)),
        wf_obj(p@),
{
    let mut fields: Vec<(String, Scalar)> = Vec::new();
    proof {
        assert(obj_model(fields@) =~= Map::<Seq<char>, ScalarModel>::empty());
    }
    push_field(&mut fields, "class", Scalar::Text(String::from_str(class)));
    push_field(&mut fields, "title", Scalar::Text(String::from_str(title)));
    let p = Payload { fields };
    proof {
        assert forall|k: Seq<char>| p@.contains_key(k) implies wf_scalar(#[trigger] p@[k]) by {
            assert(k == "class"@ || k == "title"@);
        }
    }
    p
}

/// The payload of setting the child's resource path.
pub fn set_path_payload(path: &str) -> (p: Payload)
    ensures
        p@ == Map::<Seq<char>, ScalarModel>::empty().insert("path"@, ScalarModel::Text(path@)),
        wf_obj(p@),
{
    let mut fields: Vec<(String, Scalar)> = Vec::new();
    proof {
        assert(obj_model(fields@) =~= Map::<Seq<char>, ScalarModel>::empty());
    }
    push_field(&mut fields, "path", Scalar::Text(String::from_str(path)));
    let p = Payload { fields };
    proof {
        assert forall|k: Seq<char>| p@.contains_key(k) implies wf_scalar(#[trigger] p@[k]) by {
            assert(k == "path"@);
        }
    }
    p
}

/// The payload of registering with a licence code and version.
pub fn reg_payload(code: &str, ver: &str) -> (p: Payload)
    ensures
        p@ == Map::<Seq<char>, ScalarModel>::empty().insert(
            "code"@,
            ScalarModel::Text(code@),
        ).insert("ver"@, ScalarModel::Text(ver@)),
        wf_obj(p@),
{
    let mut fields: Vec<(String, Scalar)> = Vec::new();
    proof {
        assert(obj_model(fields@) =~= Map::<Seq<char>, ScalarModel>::empty());
    }
    push_field(&mut fields, "code", Scalar::Text(String::from_str(code)));
    push_field(&mut fields, "ver", Scalar::Text(String::from_str(ver)));
    let p = Payload { fields };
    proof {
        assert forall|k: Seq<char>| p@.contains_key(k) implies wf_scalar(#[trigger] p@[k]) by {
            assert(k == "code"@ || k == "ver"@);
        }
    }
    p
}

/// The payload of moving the mouse to a point.
pub fn move_to_payload(pt: &Point) -> (p: Payload)
    ensures
        p@ == Map::<Seq<char>, ScalarModel>::empty().insert(
            "x"@,
            ScalarModel::Int(pt.x as int),
        ).insert("y"@, ScalarModel::Int(pt.y as int)),
        wf_obj(p@),
{
    let mut fields: Vec<(String, Scalar)> = Vec::new();
    proof {
        assert(obj_model(fields@) =~= Map::<Seq<char>, ScalarModel>::empty());
    }
    push_field(&mut fields, "x", Scalar::Int(pt.x));
    push_field(&mut fields, "y", Scalar::Int(pt.y));
    let p = Payload { fields };
    proof {
        assert forall|k: Seq<char>| p@.contains_key(k) implies wf_scalar(#[trigger] p@[k]) by {
            assert(k == "x"@ || k == "y"@);
        }
    }
    p
}

/// The payload of looking a window's rectangle up by its handle.
pub fn get_window_rect_payload(hwnd: u64) -> (p: Payload)
    ensures
        p@ == Map::<Seq<char>, ScalarModel>::empty().insert(
            "hwnd"@,
            ScalarModel::Int(hwnd as int),
        ),
        wf_obj(p@),
{
    let mut fields: Vec<(String, Scalar)> = Vec::new();
    proof {
        assert(obj_model(fields@) =~= Map::<Seq<char>, ScalarModel>::empty());
    }
    push_field(&mut fields, "hwnd", Scalar::UInt(hwnd));
    let p = Payload { fields };
    proof {
        assert forall|k: Seq<char>| p@.contains_key(k) implies wf_scalar(#[trigger] p@[k]) by {
            assert(k == "hwnd"@);
        }
    }
    p
}

/// The payload of a picture search: the search rectangle, the picture name,
/// and the options. The similarity threshold goes out as a decimal number in
/// thousandths, which is the one payload value that does not survive a wire
/// round trip exactly, so this payload carries no well-formedness claim.
pub fn find_pic_payload(r: &Rect, pic_name: &str, opts: &FindPicOptions) -> (p: Payload)
    ensures
        p@ == Map::<Seq<char>, ScalarModel>::empty().insert(
            "x1"@,
            ScalarModel::Int(r.x1 as int),
        ).insert("y1"@, ScalarModel::Int(r.y1 as int)).insert(
            "x2"@,
            ScalarModel::Int(r.x2 as int),
        ).insert("y2"@, ScalarModel::Int(r.y2 as int)).insert(
            "pic_name"@,
            ScalarModel::Text(pic_name@),
        ).insert("delta_color"@, ScalarModel::Text(opts.delta_color@)).insert(
            "sim"@,
            ScalarModel::Milli(opts.sim_milli as int),
        ).insert("dir"@, ScalarModel::Int(opts.dir as int)),
{
    let mut fields: Vec<(String, Scalar)> = Vec::new();
    proof {
        assert(obj_model(fields@) =~= Map::<Seq<char>, ScalarModel>::empty());
    }
    push_field(&mut fields, "x1", Scalar::Int(r.x1));
    push_field(&mut fields, "y1", Scalar::Int(r.y1));
    push_field(&mut fields, "x2", Scalar::Int(r.x2));
    push_field(&mut fields, "y2", Scalar::Int(r.y2));
    push_field(&mut fields, "pic_name", Scalar::Text(String::from_str(pic_name)));
    push_field(&mut fields, "delta_color", Scalar::Text(opts.delta_color.clone()));
    push_field(&mut fields, "sim", Scalar::Milli(opts.sim_milli));
    push_field(&mut fields, "dir", Scalar::UInt(opts.dir as u64));
    Payload { fields }
}

} // verus!
