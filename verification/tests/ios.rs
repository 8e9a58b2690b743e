use openframe::platform::ios::accessibility::{
    snapshot_node_count, write_nul_terminated_utf8_slice, AccessibilitySnapshot, BoundsBits, Hitbox,
};
use openframe::platform::ios::bridge::{
    ios_inject_touch, ios_set_metal_layer_ptr, ios_store_active_window, touch_input, PlatformInput,
    PointBits,
};
use openframe::platform::ios::display::{uuid_as_u128, IosDisplay};
use openframe::platform::ios::keyboard::IosKeyboardLayout;
use openframe::platform::ios::window::{
    AtlasTextureKind, DeviceSize, DispatchEventResult, IosAtlas, IosWindowState,
};
use openframe::{AccessibilityProperties, ACCESSIBILITY_TRAIT_BUTTON};
use std::cell::RefCell;
use std::rc::Rc;

fn rect(x: f32, y: f32, w: f32, h: f32) -> BoundsBits {
    BoundsBits { x: x.to_bits(), y: y.to_bits(), width: w.to_bits(), height: h.to_bits() }
}

fn props(label: &str, hint: Option<&str>, traits: u64) -> Option<AccessibilityProperties> {
    Some(AccessibilityProperties { label: label.to_string(), hint: hint.map(|h| h.to_string()), traits })
}

fn sample_snapshot() -> AccessibilitySnapshot {
    let hitboxes = vec![
        Hitbox { bounds: rect(0.0, 0.0, 10.0, 10.0), accessibility: props("Back", None, ACCESSIBILITY_TRAIT_BUTTON) },
        Hitbox { bounds: rect(1.0, 1.0, 2.0, 2.0), accessibility: None },
        Hitbox { bounds: rect(5.5, 6.5, 7.0, 8.0), accessibility: props("Sélection", Some("Opens the list"), 0) },
    ];
    let mut s = AccessibilitySnapshot::new();
    s.sync_from_hitboxes(&hitboxes);
    s
}

#[test]
fn snapshot_keeps_accessible_hitboxes_reversed() {
    let empty = AccessibilitySnapshot::new();
    assert_eq!(snapshot_node_count(&empty), 0);
    let s = sample_snapshot();
    assert_eq!(snapshot_node_count(&s), 2);
    let first = s.node(0).unwrap();
    assert_eq!(first.label, "Sélection");
    assert_eq!(first.bounds, rect(5.5, 6.5, 7.0, 8.0));
    let second = s.node(1).unwrap();
    assert_eq!(second.label, "Back");
    assert_eq!(second.traits, 1);
    assert!(s.node(2).is_none());
}

#[test]
fn snapshot_resync_replaces_nodes() {
    let mut s = sample_snapshot();
    s.sync_from_hitboxes(&[]);
    assert_eq!(snapshot_node_count(&s), 0);
}

#[test]
fn nul_terminated_write_truncates() {
    let mut buf = [0xAAu8; 6];
    assert_eq!(write_nul_terminated_utf8_slice(&mut buf, "hello world"), 5);
    assert_eq!(&buf, b"hello\0");
    let mut buf = [0xAAu8; 6];
    assert_eq!(write_nul_terminated_utf8_slice(&mut buf, "hi"), 2);
    assert_eq!(buf, [b'h', b'i', 0, 0xAA, 0xAA, 0xAA]);
    let mut empty: [u8; 0] = [];
    assert_eq!(write_nul_terminated_utf8_slice(&mut empty, "x"), 0);
    let mut one = [7u8; 1];
    assert_eq!(write_nul_terminated_utf8_slice(&mut one, "x"), 0);
    assert_eq!(one, [0]);
    let mut buf = [0xAAu8; 4];
    assert_eq!(write_nul_terminated_utf8_slice(&mut buf, "é!"), 3);
    assert_eq!(buf, [0xC3, 0xA9, b'!', 0]);
}

#[test]
fn nul_terminated_write_never_cuts_a_character() {
    let mut buf = [0xAAu8; 2];
    assert_eq!(write_nul_terminated_utf8_slice(&mut buf, "é"), 0);
    assert_eq!(buf, [0, 0xAA]);
    let mut buf = [0xAAu8; 3];
    assert_eq!(write_nul_terminated_utf8_slice(&mut buf, "aé"), 1);
    assert_eq!(buf, [b'a', 0, 0xAA]);
    let mut buf = [0xAAu8; 4];
    assert_eq!(write_nul_terminated_utf8_slice(&mut buf, "a\u{1F600}"), 1);
    assert_eq!(&buf[..2], b"a\0");
    let mut buf = [0xAAu8; 6];
    let n = write_nul_terminated_utf8_slice(&mut buf, "x\u{2500}\u{2500}");
    assert_eq!(n, 4);
    assert!(std::str::from_utf8(&buf[..n]).is_ok());
    assert_eq!(buf[n], 0);
}

#[test]
fn query_node_truncates_label_at_char_boundary() {
    let s = sample_snapshot();
    let mut label = [0xAAu8; 3];
    let mut hint = [0u8; 0];
    let q = s.query_node(0, &mut label, &mut hint);
    assert_eq!(q.label_len, 1);
    assert_eq!(label, [b'S', 0, 0xAA]);
}

#[test]
fn query_node_reports_fields() {
    let s = sample_snapshot();
    let mut label = [0xAAu8; 32];
    let mut hint = [0xAAu8; 5];
    let q = s.query_node(0, &mut label, &mut hint);
    assert_eq!(q.bounds, rect(5.5, 6.5, 7.0, 8.0));
    assert_eq!(f32::from_bits(q.bounds.x), 5.5);
    assert_eq!(q.traits, 0);
    assert_eq!(q.label_len, "Sélection".len());
    assert_eq!(&label[..q.label_len], "Sélection".as_bytes());
    assert_eq!(label[q.label_len], 0);
    assert_eq!(q.hint_len, 4);
    assert_eq!(&hint, b"Open\0");
    let mut label = [0xAAu8; 8];
    let mut hint = [0xAAu8; 3];
    let q = s.query_node(1, &mut label, &mut hint);
    assert_eq!(q.traits, ACCESSIBILITY_TRAIT_BUTTON);
    assert_eq!(q.label_len, 4);
    assert_eq!(&label[..5], b"Back\0");
    assert_eq!(q.hint_len, 0);
    assert_eq!(hint, [0, 0xAA, 0xAA]);
}

#[test]
fn query_node_out_of_range_is_zero() {
    let s = sample_snapshot();
    let mut label = [9u8; 4];
    let mut hint: [u8; 0] = [];
    let q = s.query_node(5, &mut label, &mut hint);
    assert_eq!(q.bounds, BoundsBits { x: 0, y: 0, width: 0, height: 0 });
    assert_eq!(f32::from_bits(q.bounds.width), 0.0);
    assert_eq!((q.traits, q.label_len, q.hint_len), (0, 0, 0));
    assert_eq!(label, [9, 9, 9, 9]);
}

type Callback = Box<dyn FnMut(PlatformInput) -> DispatchEventResult>;

#[test]
fn window_state_defaults_and_setters() {
    let mut w: IosWindowState<Callback> = IosWindowState::new(7, rect(0.0, 0.0, 390.0, 844.0));
    assert_eq!(w.handle(), 7);
    assert_eq!(w.title(), None);
    assert!(!w.is_edited());
    assert!(!w.is_fullscreen());
    assert_eq!(w.host_metal_layer(), None);
    w.set_title("Editor");
    assert_eq!(w.title().as_deref(), Some("Editor"));
    w.set_edited(true);
    assert!(w.is_edited());
    w.toggle_fullscreen();
    assert!(w.is_fullscreen());
    w.toggle_fullscreen();
    assert!(!w.is_fullscreen());
    w.resize(100f32.to_bits(), 200f32.to_bits());
    assert_eq!(w.bounds(), rect(0.0, 0.0, 100.0, 200.0));
    w.set_host_metal_layer_ptr(0xdead);
    assert_eq!(w.host_metal_layer(), Some(0xdead));
}

#[test]
fn input_without_callback_is_unhandled() {
    let mut w: IosWindowState<Callback> = IosWindowState::new(1, rect(0.0, 0.0, 1.0, 1.0));
    assert!(!w.inject_platform_input(touch_input(PointBits { x: 0, y: 0 }, 0)));
}

#[test]
fn input_handled_when_propagation_stops() {
    let seen: Rc<RefCell<Vec<PlatformInput>>> = Rc::new(RefCell::new(Vec::new()));
    let log = seen.clone();
    let mut w: IosWindowState<Callback> = IosWindowState::new(1, rect(0.0, 0.0, 1.0, 1.0));
    w.on_input(Box::new(move |e: PlatformInput| {
        log.borrow_mut().push(e);
        let stop = matches!(e, PlatformInput::MouseDown { .. });
        DispatchEventResult { propagate: !stop, default_prevented: false }
    }));
    let p = PointBits { x: 3f32.to_bits(), y: 4f32.to_bits() };
    assert!(w.inject_platform_input(touch_input(p, 0)));
    assert!(!w.inject_platform_input(touch_input(p, 1)));
    assert_eq!(seen.borrow().len(), 2);
}

#[test]
fn touch_phases_map_to_mouse_events() {
    let p = PointBits { x: 1, y: 2 };
    assert_eq!(touch_input(p, 0), PlatformInput::MouseDown { position: p, click_count: 1, first_mouse: false });
    assert_eq!(touch_input(p, 1), PlatformInput::MouseMove { position: p });
    assert_eq!(touch_input(p, 2), PlatformInput::MouseUp { position: p, click_count: 1 });
    assert_eq!(touch_input(p, 3), PlatformInput::MouseUp { position: p, click_count: 1 });
    assert_eq!(touch_input(p, 200), PlatformInput::MouseUp { position: p, click_count: 1 });
}

#[test]
fn bridge_sets_layer_and_injects_touches() {
    let mut active: Option<IosWindowState<Callback>> = None;
    ios_set_metal_layer_ptr(&mut active, 42);
    assert!(active.is_none());
    ios_inject_touch(&mut active, 0, 0, 0);
    assert!(active.is_none());

    let seen: Rc<RefCell<Vec<PlatformInput>>> = Rc::new(RefCell::new(Vec::new()));
    let log = seen.clone();
    let mut w: IosWindowState<Callback> = IosWindowState::new(9, rect(0.0, 0.0, 1.0, 1.0));
    w.on_input(Box::new(move |e: PlatformInput| {
        log.borrow_mut().push(e);
        DispatchEventResult { propagate: true, default_prevented: false }
    }));
    ios_store_active_window(&mut active, w);
    ios_set_metal_layer_ptr(&mut active, 42);
    assert_eq!(active.as_ref().unwrap().host_metal_layer(), Some(42));
    ios_inject_touch(&mut active, 5f32.to_bits(), 6f32.to_bits(), 1);
    let p = PointBits { x: 5f32.to_bits(), y: 6f32.to_bits() };
    assert_eq!(*seen.borrow(), vec![PlatformInput::MouseMove { position: p }]);
}

#[test]
fn atlas_caches_and_numbers_tiles() {
    let mut atlas = IosAtlas::new();
    let size = DeviceSize { width: 16, height: 8 };
    let t1 = atlas
        .get_or_insert_with(10, || Ok::<_, String>(Some((size, vec![0u8; 4]))))
        .unwrap()
        .unwrap();
    assert_eq!((t1.texture_index, t1.tile_id, t1.padding), (1, 2, 0));
    assert_eq!(t1.texture_kind, AtlasTextureKind::Monochrome);
    assert_eq!((t1.origin_x, t1.origin_y), (0, 0));
    assert_eq!(t1.size, size);
    let again = atlas
        .get_or_insert_with(10, || -> Result<Option<(DeviceSize, Vec<u8>)>, String> {
            panic!("a cached tile is not rebuilt")
        })
        .unwrap()
        .unwrap();
    assert_eq!(again, t1);
    let t2 = atlas
        .get_or_insert_with(11, || Ok::<_, String>(Some((DeviceSize { width: 1, height: 1 }, ()))))
        .unwrap()
        .unwrap();
    assert_eq!((t2.texture_index, t2.tile_id), (3, 4));
}

#[test]
fn atlas_passes_errors_and_empty_builds() {
    let mut atlas = IosAtlas::new();
    let e = atlas.get_or_insert_with(1, || Err::<Option<(DeviceSize, ())>, &str>("decode failed"));
    assert_eq!(e, Err("decode failed"));
    let none = atlas.get_or_insert_with(1, || Ok::<Option<(DeviceSize, ())>, &str>(None));
    assert_eq!(none, Ok(None));
    let t = atlas
        .get_or_insert_with(1, || Ok::<_, &str>(Some((DeviceSize { width: 2, height: 2 }, ()))))
        .unwrap()
        .unwrap();
    assert_eq!((t.texture_index, t.tile_id), (1, 2));
}

#[test]
fn atlas_remove_forces_rebuild() {
    let mut atlas = IosAtlas::new();
    let s = DeviceSize { width: 3, height: 3 };
    let first = atlas.get_or_insert_with(5, || Ok::<_, ()>(Some((s, ())))).unwrap().unwrap();
    atlas.remove(5);
    atlas.remove(6);
    let rebuilt = atlas.get_or_insert_with(5, || Ok::<_, ()>(Some((s, ())))).unwrap().unwrap();
    assert_eq!((first.tile_id, rebuilt.texture_index, rebuilt.tile_id), (2, 3, 4));
}

#[test]
fn display_is_fixed_with_random_v4_uuid() {
    let d = IosDisplay::new();
    assert_eq!(d.id(), 1);
    let b = d.bounds();
    assert_eq!((b.x, b.y, b.width, b.height), (0, 0, 390, 844));
    let u = d.uuid();
    assert_eq!(u.get_version_num(), 4);
    assert_eq!(d.uuid(), u);
    let v = uuid_as_u128(&u);
    assert_eq!((v >> 76) & 0xF, 4);
    assert_eq!((v >> 62) & 0x3, 2);
    assert_eq!(v, u.as_u128());
    assert_ne!(IosDisplay::new().uuid(), u);
}

#[test]
fn keyboard_layout_names() {
    let k = IosKeyboardLayout;
    assert_eq!(k.id(), "openframe.keyboard.ios");
    assert_eq!(k.name(), "iOS Software Keyboard");
}
