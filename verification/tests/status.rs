use terrain_editor::status::{decimal_string, import_event, status_message, ImportEvent};

#[test]
fn decimal_numbers() {
    assert_eq!(decimal_string(0), "0");
    assert_eq!(decimal_string(7), "7");
    assert_eq!(decimal_string(10), "10");
    assert_eq!(decimal_string(512), "512");
    assert_eq!(decimal_string(u32::MAX), "4294967295");
}

#[test]
fn loaded_message_names_the_size() {
    assert_eq!(
        status_message(ImportEvent::Loaded { width: 1024, height: 768 }),
        "已载入: 1024x768，替换地形网格"
    );
    assert_eq!(
        status_message(ImportEvent::WebLoaded { width: 3, height: 2 }),
        "(WASM) 已载入: 3x2，替换地形网格"
    );
}

#[test]
fn failure_messages() {
    assert_eq!(status_message(ImportEvent::NoTerrain), "未找到 Terrain 实体");
    assert_eq!(status_message(ImportEvent::ReadFailed), "读取或解析 PNG 失败");
    assert_eq!(status_message(ImportEvent::WebDecodeFailed), "(WASM) 解析 PNG 失败");
    assert_eq!(status_message(ImportEvent::WebDialogOpened), "(WASM) 已打开文件选择对话框");
    assert_eq!(status_message(ImportEvent::WebQueueMissing), "(WASM) 文件队列未初始化");
}

#[test]
fn import_events() {
    assert_eq!(
        import_event(Some((4, 5)), true, false),
        ImportEvent::Loaded { width: 4, height: 5 }
    );
    assert_eq!(
        import_event(Some((4, 5)), true, true),
        ImportEvent::WebLoaded { width: 4, height: 5 }
    );
    assert_eq!(import_event(Some((4, 5)), false, false), ImportEvent::NoTerrain);
    assert_eq!(import_event(Some((4, 5)), false, true), ImportEvent::NoTerrain);
    assert_eq!(import_event(None, false, false), ImportEvent::ReadFailed);
    assert_eq!(import_event(None, true, true), ImportEvent::WebDecodeFailed);
}
