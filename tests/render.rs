use invoice_cli::json::{decode_ids, decode_items, encode_ids, encode_items};
use invoice_cli::models::InvoiceItem;
use invoice_cli::render::{check_image_size, image_data_uri, is_valid_image, notes_html, ValidationError};

#[test]
fn image_paths_are_judged_by_extension() {
    assert!(is_valid_image("logo.png"));
    assert!(is_valid_image("photo.JPG"));
    assert!(is_valid_image("pic.webp"));
    assert!(!is_valid_image("logo.gif"));
    assert!(!is_valid_image("notes.txt"));
    assert!(!is_valid_image("noextension"));
}

#[test]
fn images_over_the_limit_are_refused() {
    assert_eq!(check_image_size(1_000_000), Ok(()));
    assert_eq!(check_image_size(1_000_001), Err(ValidationError::ImageTooLarge { size: 1_000_001 }));
}

#[test]
fn png_bytes_become_a_data_uri() {
    let png = vec![0x89, b'P', b'N', b'G', 0x0D, 0x0A, 0x1A, 0x0A];
    assert_eq!(image_data_uri(&png), Some("data:image/png;base64,iVBORw0KGgo=".to_string()));
    assert_eq!(image_data_uri(&vec![1, 2, 3]), None);
}

#[test]
fn notes_render_as_html() {
    assert_eq!(notes_html("# Due\n\n- one"), "<h1>Due</h1>\n<ul>\n<li>one</li>\n</ul>\n");
}

#[test]
fn id_lists_and_lines_frame_and_read_back() {
    assert_eq!(encode_ids(&vec![]), "[]");
    assert_eq!(encode_ids(&vec![1, -20, 300]), "[1,-20,300]");
    assert_eq!(decode_ids("[1,-20,300]"), Some(vec![1, -20, 300]));
    assert_eq!(decode_ids("[1,"), None);
    let lines = vec![InvoiceItem { item: 1, quantity: 2 }, InvoiceItem { item: 3, quantity: 4 }];
    let text = encode_items(&lines);
    assert_eq!(text, "[{\"item\":1,\"quantity\":2},{\"item\":3,\"quantity\":4}]");
    assert_eq!(decode_items(&text), Some(lines));
    assert_eq!(decode_items("[{\"quantity\":4,\"item\":3}]"), Some(vec![InvoiceItem { item: 3, quantity: 4 }]));
    assert_eq!(decode_items("[{\"item\":3}]"), None);
}
