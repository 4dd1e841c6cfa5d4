use nelly::platform_message::binary::{BinaryReader, BinaryWriter, CodecError};
use nelly::platform_message::shutdown::Shutdown;
use nelly::platform_message::wlr_layer::{
    Anchor, Create as LayerCreate, Layer, Remove as LayerRemove, Update as LayerUpdate,
    ANCHOR_BOTTOM, ANCHOR_LEFT, ANCHOR_RIGHT, ANCHOR_TOP,
};
use nelly::platform_message::xdg_toplevel::{
    Close, Create, InitialCommit, Remove, Update, UpdateViewConstraints,
};
use nelly::platform_message::{
    find_channel, same_bytes, starts_with, AnyPlatformRequest, DecodeError, RequestKind,
};
use nelly::shell::compositor::LogicalSizeConstraints;
use nelly::view::ViewId;

fn string_bytes(text: &str) -> Vec<u8> {
    let mut bytes = (text.len() as u64).to_le_bytes().to_vec();
    bytes.extend_from_slice(text.as_bytes());
    bytes
}

fn constraints_payload(view_id: i64, bounds: [f64; 4]) -> Vec<u8> {
    let mut payload = view_id.to_le_bytes().to_vec();
    for bound in bounds {
        payload.extend_from_slice(&bound.to_le_bytes());
    }
    payload
}

#[test]
fn channel_names() {
    assert_eq!(RequestKind::Shutdown.channel(), "nelly/graceful_shutdown");
    assert_eq!(RequestKind::WlrLayerCreate.channel(), "wayland/wlr_layer/create");
    assert_eq!(RequestKind::WlrLayerUpdate.channel(), "wayland/wlr_layer/update");
    assert_eq!(RequestKind::WlrLayerRemove.channel(), "wayland/wlr_layer/remove");
    assert_eq!(RequestKind::XdgToplevelCreate.channel(), "wayland/xdg_toplevel/create");
    assert_eq!(
        RequestKind::XdgToplevelInitialCommit.channel(),
        "wayland/xdg_toplevel/initial_commit"
    );
    assert_eq!(RequestKind::XdgToplevelUpdate.channel(), "wayland/xdg_toplevel/update");
    assert_eq!(
        RequestKind::XdgToplevelUpdateViewConstraints.channel(),
        "wayland/xdg_toplevel/update_view_constraints"
    );
    assert_eq!(RequestKind::XdgToplevelRemove.channel(), "wayland/xdg_toplevel/remove");
}

#[test]
fn every_channel_is_found() {
    for kind in [
        RequestKind::Shutdown,
        RequestKind::WlrLayerCreate,
        RequestKind::WlrLayerUpdate,
        RequestKind::WlrLayerRemove,
        RequestKind::XdgToplevelCreate,
        RequestKind::XdgToplevelInitialCommit,
        RequestKind::XdgToplevelUpdate,
        RequestKind::XdgToplevelUpdateViewConstraints,
        RequestKind::XdgToplevelRemove,
    ] {
        assert_eq!(find_channel(kind.channel().as_bytes()), Some(kind));
        assert!(kind.is_on(kind.channel().as_bytes()));
    }
}

#[test]
fn channel_match_is_exact() {
    assert_eq!(find_channel(b"wayland/xdg_toplevel/updat"), None);
    assert_eq!(find_channel(b"wayland/xdg_toplevel/update "), None);
    assert_eq!(find_channel(b"Wayland/xdg_toplevel/update"), None);
    assert_eq!(find_channel(b""), None);
    assert_eq!(find_channel(b"flutter/platform"), None);
    assert!(!RequestKind::Shutdown.is_on(b"nelly/graceful_shutdown\0"));
}

#[test]
fn byte_strings_compare() {
    assert!(same_bytes(b"abc", b"abc"));
    assert!(same_bytes(b"", b""));
    assert!(!same_bytes(b"abc", b"abd"));
    assert!(!same_bytes(b"abc", b"ab"));
    assert!(starts_with(b"flutter/x", b"flutter/"));
    assert!(starts_with(b"abc", b""));
    assert!(!starts_with(b"flutte", b"flutter/"));
    assert!(!starts_with(b"glutter/x", b"flutter/"));
}

#[test]
fn unknown_channel_is_reported_as_such() {
    assert_eq!(
        AnyPlatformRequest::decode(b"flutter/textinput", &[1, 2, 3]),
        Err(DecodeError::UnknownChannel)
    );
}

#[test]
fn shutdown_takes_no_payload() {
    assert_eq!(
        AnyPlatformRequest::decode(b"nelly/graceful_shutdown", &[]),
        Ok(AnyPlatformRequest::Shutdown(Shutdown))
    );
    assert_eq!(
        AnyPlatformRequest::decode(b"nelly/graceful_shutdown", &[0]),
        Err(DecodeError::Malformed(CodecError::TrailingData))
    );
}

#[test]
fn toplevel_create_takes_no_payload() {
    assert_eq!(
        AnyPlatformRequest::decode(b"wayland/xdg_toplevel/create", &[]),
        Ok(AnyPlatformRequest::XdgToplevelCreate(Create))
    );
    assert_eq!(
        AnyPlatformRequest::decode(b"wayland/xdg_toplevel/create", &[7, 7]),
        Err(DecodeError::Malformed(CodecError::TrailingData))
    );
}

#[test]
fn initial_commit_holds_a_view_id() {
    assert_eq!(
        AnyPlatformRequest::decode(b"wayland/xdg_toplevel/initial_commit", &5i64.to_le_bytes()),
        Ok(AnyPlatformRequest::XdgToplevelInitialCommit(InitialCommit { view_id: ViewId(5) }))
    );
    assert_eq!(
        AnyPlatformRequest::decode(b"wayland/xdg_toplevel/initial_commit", &[5, 0, 0]),
        Err(DecodeError::Malformed(CodecError::UnexpectedEof))
    );
}

#[test]
fn toplevel_update_holds_two_strings() {
    let mut payload = 9i64.to_le_bytes().to_vec();
    payload.extend(string_bytes("Title ✓"));
    payload.extend(string_bytes("org.example.App"));
    assert_eq!(
        AnyPlatformRequest::decode(b"wayland/xdg_toplevel/update", &payload),
        Ok(AnyPlatformRequest::XdgToplevelUpdate(Update {
            view_id: ViewId(9),
            title: "Title ✓".to_string(),
            app_id: "org.example.App".to_string(),
        }))
    );
    payload.push(0);
    assert_eq!(
        AnyPlatformRequest::decode(b"wayland/xdg_toplevel/update", &payload),
        Err(DecodeError::Malformed(CodecError::TrailingData))
    );
}

#[test]
fn toplevel_update_with_a_broken_title() {
    let mut payload = 9i64.to_le_bytes().to_vec();
    payload.extend(1u64.to_le_bytes());
    payload.push(0x80);
    payload.extend(string_bytes("app"));
    assert_eq!(
        AnyPlatformRequest::decode(b"wayland/xdg_toplevel/update", &payload),
        Err(DecodeError::Malformed(CodecError::InvalidUtf8))
    );
}

#[test]
fn toplevel_update_without_its_second_string() {
    let mut payload = 9i64.to_le_bytes().to_vec();
    payload.extend(string_bytes("title"));
    assert_eq!(
        AnyPlatformRequest::decode(b"wayland/xdg_toplevel/update", &payload),
        Err(DecodeError::Malformed(CodecError::UnexpectedEof))
    );
}

#[test]
fn view_constraints_hold_four_doubles() {
    let payload = constraints_payload(7, [100.0, 100.5, 500.0, f64::INFINITY]);
    assert_eq!(
        AnyPlatformRequest::decode(b"wayland/xdg_toplevel/update_view_constraints", &payload),
        Ok(AnyPlatformRequest::XdgToplevelUpdateViewConstraints(UpdateViewConstraints {
            view_id: ViewId(7),
            constraints: LogicalSizeConstraints {
                min_width: 100.0f64.to_bits(),
                min_height: 100.5f64.to_bits(),
                max_width: 500.0f64.to_bits(),
                max_height: f64::INFINITY.to_bits(),
            },
        }))
    );
}

#[test]
fn view_constraints_with_trailing_bytes() {
    let mut payload = constraints_payload(7, [1.0, 2.0, 3.0, 4.0]);
    payload.push(1);
    assert_eq!(
        AnyPlatformRequest::decode(b"wayland/xdg_toplevel/update_view_constraints", &payload),
        Err(DecodeError::Malformed(CodecError::TrailingData))
    );
    let mut reader = BinaryReader::new(&payload);
    assert_eq!(reader.read::<UpdateViewConstraints>(), Err(CodecError::TrailingData));
}

#[test]
fn view_constraints_cut_short() {
    let payload = constraints_payload(7, [1.0, 2.0, 3.0, 4.0]);
    for len in 0..payload.len() {
        assert_eq!(
            AnyPlatformRequest::decode(
                b"wayland/xdg_toplevel/update_view_constraints",
                &payload[..len]
            ),
            Err(DecodeError::Malformed(CodecError::UnexpectedEof))
        );
    }
}

#[test]
fn toplevel_remove_holds_a_view_id() {
    assert_eq!(
        AnyPlatformRequest::decode(b"wayland/xdg_toplevel/remove", &(-3i64).to_le_bytes()),
        Ok(AnyPlatformRequest::XdgToplevelRemove(Remove { view_id: ViewId(-3) }))
    );
}

#[test]
fn layer_create_holds_a_layer_and_a_namespace() {
    let mut payload = vec![2u8];
    payload.extend(string_bytes("panel"));
    assert_eq!(
        AnyPlatformRequest::decode(b"wayland/wlr_layer/create", &payload),
        Ok(AnyPlatformRequest::WlrLayerCreate(LayerCreate {
            layer: Layer::Top,
            namespace: "panel".to_string(),
        }))
    );
}

#[test]
fn layers_by_number() {
    for (code, layer) in
        [(0u8, Layer::Background), (1, Layer::Bottom), (2, Layer::Top), (3, Layer::Overlay)]
    {
        let bytes = [code];
        let mut reader = BinaryReader::new(&bytes);
        assert_eq!(reader.read::<Layer>(), Ok(layer));
    }
    let bytes = [4u8];
    let mut reader = BinaryReader::new(&bytes);
    assert_eq!(reader.read::<Layer>(), Err(CodecError::InvalidValue));
    let mut reader = BinaryReader::new(&[]);
    assert_eq!(reader.read::<Layer>(), Err(CodecError::UnexpectedEof));
}

#[test]
fn layer_create_with_an_unknown_layer() {
    let mut payload = vec![9u8];
    payload.extend(string_bytes("panel"));
    assert_eq!(
        AnyPlatformRequest::decode(b"wayland/wlr_layer/create", &payload),
        Err(DecodeError::Malformed(CodecError::InvalidValue))
    );
}

#[test]
fn anchors_hold_only_edges() {
    assert_eq!(Anchor::from_bits(0), Some(Anchor { bits: 0 }));
    assert_eq!(
        Anchor::from_bits(ANCHOR_TOP | ANCHOR_BOTTOM | ANCHOR_LEFT | ANCHOR_RIGHT),
        Some(Anchor { bits: 15 })
    );
    assert_eq!(Anchor::from_bits(16), None);
    assert_eq!(Anchor::from_bits(u32::MAX), None);
}

#[test]
fn layer_update_holds_size_and_anchor() {
    let mut payload = 4i64.to_le_bytes().to_vec();
    payload.extend(1920u32.to_le_bytes());
    payload.extend(32u32.to_le_bytes());
    payload.extend((ANCHOR_TOP | ANCHOR_LEFT | ANCHOR_RIGHT).to_le_bytes());
    assert_eq!(
        AnyPlatformRequest::decode(b"wayland/wlr_layer/update", &payload),
        Ok(AnyPlatformRequest::WlrLayerUpdate(LayerUpdate {
            view_id: ViewId(4),
            width: 1920,
            height: 32,
            anchor: Anchor { bits: 13 },
        }))
    );
    let last = payload.len() - 4;
    payload[last] = 0x10;
    assert_eq!(
        AnyPlatformRequest::decode(b"wayland/wlr_layer/update", &payload),
        Err(DecodeError::Malformed(CodecError::InvalidValue))
    );
}

#[test]
fn layer_remove_holds_a_view_id() {
    assert_eq!(
        AnyPlatformRequest::decode(b"wayland/wlr_layer/remove", &11i64.to_le_bytes()),
        Ok(AnyPlatformRequest::WlrLayerRemove(LayerRemove { view_id: ViewId(11) }))
    );
}

#[test]
fn request_kinds() {
    assert_eq!(AnyPlatformRequest::Shutdown(Shutdown).kind(), RequestKind::Shutdown);
    assert_eq!(
        AnyPlatformRequest::XdgToplevelRemove(Remove { view_id: ViewId(1) }).kind(),
        RequestKind::XdgToplevelRemove
    );
}

#[test]
fn close_event_is_a_view_id_and_its_answer_is_empty() {
    let mut writer = BinaryWriter::new();
    writer.write(&Close { view_id: ViewId(6) });
    assert_eq!(writer.into_bytes(), 6i64.to_le_bytes().to_vec());
    let mut reader = BinaryReader::new(&[]);
    assert_eq!(Close::decode_response(&mut reader), Ok(()));
    let bytes = [0u8];
    let mut reader = BinaryReader::new(&bytes);
    assert_eq!(Close::decode_response(&mut reader), Err(CodecError::TrailingData));
}

#[test]
fn remove_with_a_byte_to_spare_is_refused_by_its_own_decode() {
    let payload = [0u8; 9];
    let mut reader = BinaryReader::new(&payload);
    assert_eq!(reader.read::<Remove>(), Err(CodecError::TrailingData));
    let mut reader = BinaryReader::new(&payload);
    assert_eq!(reader.read::<LayerRemove>(), Err(CodecError::TrailingData));
    let mut reader = BinaryReader::new(&payload);
    assert_eq!(reader.read::<InitialCommit>(), Err(CodecError::TrailingData));
    let mut reader = BinaryReader::new(&payload[..8]);
    assert_eq!(reader.read::<Remove>(), Ok(Remove { view_id: ViewId(0) }));
    let mut reader = BinaryReader::new(&payload[..7]);
    assert_eq!(reader.read::<Remove>(), Err(CodecError::UnexpectedEof));
}

#[test]
fn requests_without_fields_refuse_any_byte_in_their_own_decode() {
    let payload = [0u8; 1];
    let mut reader = BinaryReader::new(&payload);
    assert_eq!(reader.read::<Shutdown>(), Err(CodecError::TrailingData));
    let mut reader = BinaryReader::new(&payload);
    assert_eq!(reader.read::<Create>(), Err(CodecError::TrailingData));
    let mut reader = BinaryReader::new(&[]);
    assert_eq!(reader.read::<Shutdown>(), Ok(Shutdown));
    let mut reader = BinaryReader::new(&[]);
    assert_eq!(reader.read::<Create>(), Ok(Create));
}

#[test]
fn requests_with_strings_refuse_leftover_bytes_in_their_own_decode() {
    let mut payload = vec![2u8];
    payload.extend(string_bytes("panel"));
    let mut reader = BinaryReader::new(&payload);
    assert_eq!(
        LayerCreate::decode(&mut reader),
        Ok(LayerCreate { layer: Layer::Top, namespace: "panel".to_string() })
    );
    payload.push(0);
    let mut reader = BinaryReader::new(&payload);
    assert_eq!(LayerCreate::decode(&mut reader), Err(CodecError::TrailingData));

    let mut payload = 9i64.to_le_bytes().to_vec();
    payload.extend(string_bytes("t"));
    payload.extend(string_bytes("a"));
    let mut reader = BinaryReader::new(&payload);
    assert!(Update::decode(&mut reader).is_ok());
    payload.push(7);
    let mut reader = BinaryReader::new(&payload);
    assert_eq!(Update::decode(&mut reader), Err(CodecError::TrailingData));
}

#[test]
fn layer_update_refuses_leftover_bytes_in_its_own_decode() {
    let mut payload = 4i64.to_le_bytes().to_vec();
    payload.extend(1920u32.to_le_bytes());
    payload.extend(32u32.to_le_bytes());
    payload.extend(1u32.to_le_bytes());
    let mut reader = BinaryReader::new(&payload);
    assert!(reader.read::<LayerUpdate>().is_ok());
    payload.push(0);
    let mut reader = BinaryReader::new(&payload);
    assert_eq!(reader.read::<LayerUpdate>(), Err(CodecError::TrailingData));
}

#[test]
fn a_request_in_the_middle_of_a_stream_is_refused() {
    let mut payload = 3i64.to_le_bytes().to_vec();
    payload.extend(5i64.to_le_bytes());
    let mut reader = BinaryReader::new(&payload);
    assert_eq!(reader.read::<Remove>(), Err(CodecError::TrailingData));
    let mut reader = BinaryReader::new(&payload);
    assert_eq!(reader.read::<ViewId>(), Ok(ViewId(3)));
    assert_eq!(reader.read::<Remove>(), Ok(Remove { view_id: ViewId(5) }));
}
