use eos_stream::identity::{gadget_identity, USB_PRODUCT_ID, USB_VENDOR_ID};

#[test]
fn identity_from_camera_settings() {
    let id = gadget_identity(
        "Canon EOS 5D Mark IV",
        Some("Canon EOS 5D Mark IV".to_string()),
        Some("Canon Inc.".to_string()),
        Some("012345678901".to_string()),
        Some("999".to_string()),
    );
    assert_eq!(id.manufacturer, "Canon Inc. (via eos-stream)");
    assert_eq!(id.product, "Canon EOS 5D Mark IV");
    assert_eq!(id.serial, "012345678901");
}

#[test]
fn identity_fallbacks() {
    let id = gadget_identity("  Canon\tEOS R6", None, None, None, Some("777".to_string()));
    assert_eq!(id.manufacturer, "Canon (via eos-stream)");
    assert_eq!(id.product, "  Canon\tEOS R6");
    assert_eq!(id.serial, "777");
}

#[test]
fn identity_without_anything() {
    let id = gadget_identity(" \u{3000} ", None, None, None, None);
    assert_eq!(id.manufacturer, "Unknown (via eos-stream)");
    assert_eq!(id.product, " \u{3000} ");
    assert_eq!(id.serial, "0000000");
}

#[test]
fn first_word_matches_split_whitespace() {
    for model in ["Nikon", "Sony\u{2003}A7", "a b c", "x\u{a0}y", ""] {
        let id = gadget_identity(model, None, None, None, None);
        let word = model.split_whitespace().next().unwrap_or("Unknown");
        assert_eq!(id.manufacturer, format!("{} (via eos-stream)", word));
    }
}

#[test]
fn usb_ids() {
    assert_eq!(USB_VENDOR_ID, 0x1d6b);
    assert_eq!(USB_PRODUCT_ID, 0x0104);
}
