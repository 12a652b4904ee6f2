//! The identity that the USB gadget presents to the host, taken from the
//! camera where it can tell, with fallbacks where it cannot.

use vstd::prelude::*;
use vstd::string::StrSliceExecFns;
use crate::text::{chars_of, first_word, first_word_bounds};

verus! {

broadcast use vstd::string::group_string_axioms;

/// The USB vendor id of the gadget (Linux Foundation).
pub const USB_VENDOR_ID: u16 = 0x1d6b;

/// The USB product id of the gadget (multifunction composite gadget).
pub const USB_PRODUCT_ID: u16 = 0x0104;

/// What follows the manufacturer's name in the gadget's manufacturer string.
pub open spec fn via_suffix() -> Seq<char> {
    " (via eos-stream)"@
}

/// The strings that the gadget presents to the host.
#[derive(Debug, Clone)]
pub struct GadgetIdentity {
    pub manufacturer: String,
    pub product: String,
    pub serial: String,
}

/// The gadget's manufacturer string: the camera's `manufacturer` setting,
/// or else the first word of the camera's model name, or else `Unknown`,
/// followed by the suffix.
pub open spec fn manufacturer_string(model_name: Seq<char>, manufacturer: Option<Seq<char>>) -> Seq<
    char,
> {
    let name = match manufacturer {
        Some(m) => m,
        None => match first_word(model_name) {
            Some(w) => w,
            None => "Unknown"@,
        },
    };
    name + via_suffix()
}

/// The gadget's product string: the camera's `cameramodel` setting, or else
/// its model name.
pub open spec fn product_string(model_name: Seq<char>, camera_model: Option<Seq<char>>) -> Seq<char> {
    match camera_model {
        Some(p) => p,
        None => model_name,
    }
}

/// The gadget's serial number: the camera's `eosserialnumber` setting, or
/// else its `serialnumber` setting, or else `0000000`.
pub open spec fn serial_string(eos_serial: Option<Seq<char>>, serial: Option<Seq<char>>) -> Seq<char> {
    match eos_serial {
        Some(s) => s,
        None => match serial {
            Some(s) => s,
            None => "0000000"@,
        },
    }
}

/// Each identity string is the camera's answer where it gave one: the
/// `cameramodel` setting is the product, the `manufacturer` setting leads the
/// manufacturer string, and the `eosserialnumber` setting, or else the
/// `serialnumber` setting, is the serial; the fallbacks apply only to
/// settings the camera did not answer.
pub proof fn lemma_camera_answers_win(
    model_name: Seq<char>,
    camera_model: Seq<char>,
    manufacturer: Seq<char>,
    eos_serial: Seq<char>,
    serial: Option<Seq<char>>,
    other_serial: Seq<char>,
)
    ensures
        product_string(model_name, Some(camera_model)) == camera_model,
        product_string(model_name, None) == model_name,
        manufacturer_string(model_name, Some(manufacturer)) == manufacturer + " (via eos-stream)"@,
        serial_string(Some(eos_serial), serial) == eos_serial,
        serial_string(None, Some(other_serial)) == other_serial,
        serial_string(None, None) == "0000000"@,
{
}

pub open spec fn view_of(s: Option<String>) -> Option<Seq<char>> {
    match s {
        Some(t) => Some(t@),
        None => None,
    }
}

/// The gadget's identity from the camera's model name and the text settings
/// the camera answered (`None` for one it did not).
pub fn gadget_identity(
    model_name: &str,
    camera_model: Option<String>,
    manufacturer: Option<String>,
    eos_serial: Option<String>,
    serial: Option<String>,
) -> (id: GadgetIdentity)
    ensures
        id.manufacturer@ == manufacturer_string(model_name@, view_of(manufacturer)),
        id.product@ == product_string(model_name@, view_of(camera_model)),
        id.serial@ == serial_string(view_of(eos_serial), view_of(serial)),
        id.manufacturer@.len() >= via_suffix().len(),
        id.manufacturer@.skip(id.manufacturer@.len() - via_suffix().len()) == via_suffix(),
        manufacturer matches Some(m) ==> id.manufacturer@ == m@ + " (via eos-stream)"@,
        manufacturer is None ==> id.manufacturer@ == (match first_word(model_name@) {
            Some(w) => w,
            None => "Unknown"@,
        }) + " (via eos-stream)"@,
        camera_model matches Some(p) ==> id.product@ == p@,
        camera_model is None ==> id.product@ == model_name@,
        eos_serial matches Some(e) ==> id.serial@ == e@,
        eos_serial is None ==> (serial matches Some(t) ==> id.serial@ == t@),
        eos_serial is None && serial is None ==> id.serial@ == "0000000"@,
{
    let product = match camera_model {
        Some(p) => p,
        None => String::from_str(model_name),
    };
    let name = match manufacturer {
        Some(m) => m,
        None => {
            let chars = chars_of(model_name);
            match first_word_bounds(&chars) {
                Some((a, b)) => String::from_str(model_name.substring_char(a, b)),
                None => String::from_str("Unknown"),
            }
        },
    };
    let manufacturer_text = name.concat(" (via eos-stream)");
    assert(manufacturer_text@.skip(manufacturer_text@.len() - via_suffix().len()) =~= via_suffix());
    let serial_text = match eos_serial {
        Some(s) => s,
        None => match serial {
            Some(s) => s,
            None => String::from_str("0000000"),
        },
    };
    GadgetIdentity { manufacturer: manufacturer_text, product, serial: serial_text }
}

} // verus!
