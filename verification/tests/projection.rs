use magika_boundary::{TypeDescriptor, TypeInfo};

fn plain_text() -> TypeDescriptor {
    TypeDescriptor::new("txt", "text/plain", "text", "Generic text document", &["txt"], true)
}

#[test]
fn new_copies_every_field() {
    let d = TypeDescriptor::new("jpeg", "image/jpeg", "image", "JPEG image data", &["jpg", "jpeg"], false);
    assert_eq!(d.label, "jpeg");
    assert_eq!(d.mime_type, "image/jpeg");
    assert_eq!(d.group, "image");
    assert_eq!(d.description, "JPEG image data");
    assert_eq!(d.extensions, vec!["jpg".to_string(), "jpeg".to_string()]);
    assert!(!d.is_text);
}

#[test]
fn projection_of_plain_text() {
    let info = TypeInfo::from(&plain_text());
    assert_eq!(info.label, Some(b"txt\0".to_vec()));
    assert_eq!(info.mime_type, Some(b"text/plain\0".to_vec()));
    assert_eq!(info.group, Some(b"text\0".to_vec()));
    assert_eq!(info.description, Some(b"Generic text document\0".to_vec()));
    assert_eq!(info.extensions_length, 1);
    assert_eq!(info.extensions, Some(vec![b"txt\0".to_vec()]));
    assert_eq!(info.is_text, 1);
}

#[test]
fn projection_keeps_the_order_of_the_extensions() {
    let d = TypeDescriptor::new("jpeg", "image/jpeg", "image", "JPEG image data", &["jpg", "jpeg"], false);
    let info = TypeInfo::from(&d);
    assert_eq!(info.extensions_length, 2);
    assert_eq!(info.extensions, Some(vec![b"jpg\0".to_vec(), b"jpeg\0".to_vec()]));
    assert_eq!(info.is_text, 0);
}

#[test]
fn projection_without_extensions_has_an_empty_array() {
    let d = TypeDescriptor::new("directory", "inode/directory", "inode", "A directory", &[], false);
    let info = TypeInfo::from(&d);
    assert_eq!(info.extensions_length, 0);
    assert_eq!(info.extensions, Some(Vec::new()));
    assert_eq!(info.label, Some(b"directory\0".to_vec()));
    assert_eq!(info.is_text, 0);
}

#[test]
fn projection_owns_copies_that_outlive_the_descriptor() {
    let info = {
        let d = plain_text();
        TypeInfo::from(&d)
    };
    assert_eq!(info.label, Some(b"txt\0".to_vec()));
}

#[test]
fn crosses_accepts_text_without_zero_bytes() {
    assert!(plain_text().crosses());
    assert!(TypeDescriptor::new("", "", "", "", &[], false).crosses());
}

#[test]
fn crosses_refuses_a_zero_byte_in_any_text() {
    assert!(!TypeDescriptor::new("t\0t", "m", "g", "d", &["e"], true).crosses());
    assert!(!TypeDescriptor::new("l", "m\0", "g", "d", &["e"], true).crosses());
    assert!(!TypeDescriptor::new("l", "m", "\0g", "d", &["e"], true).crosses());
    assert!(!TypeDescriptor::new("l", "m", "g", "d\0d", &["e"], true).crosses());
    assert!(!TypeDescriptor::new("l", "m", "g", "d", &["e", "f\0"], true).crosses());
}

#[test]
fn equal_descriptors_have_equal_projections() {
    let a = TypeInfo::from(&plain_text());
    let b = TypeInfo::from(&plain_text());
    assert_eq!(a, b);
}

#[test]
fn different_descriptors_have_different_projections() {
    let a = TypeInfo::from(&plain_text());
    let b = TypeInfo::from(&TypeDescriptor::new("txt", "text/plain", "text", "Generic text document", &["txt"], false));
    let c = TypeInfo::from(&TypeDescriptor::new("txt", "text/plain", "text", "Generic text document", &["txt", "text"], true));
    assert_ne!(a, b);
    assert_ne!(a, c);
}
