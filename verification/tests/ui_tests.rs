use jk_editor::ui::action::{Action, Position};
use jk_editor::ui::command::Command;
use jk_editor::ui::def::{
    panel_move, ViewConfig, WidgetConfig, WidgetPanel, WidgetPanelConfig, WindowConfig,
};
use jk_editor::ui::tree::{Tree, TreeSlot};

fn same_config(a: &WidgetConfig, b: (bool, i32, i32, i32, i32)) -> bool {
    (a.visible, a.x, a.y, a.w, a.h) == b
}

#[test]
fn widget_config_defaults() {
    assert!(same_config(&WidgetConfig::new(), (true, 10, 10, 300, 400)));
    assert!(same_config(&WidgetConfig::default(), (true, 10, 10, 300, 400)));
    assert!(same_config(&WidgetConfig::with_width_height(640, 480), (true, 10, 10, 640, 480)));
    assert!(same_config(&WidgetConfig::new_from_obj((1, 2, 3, 4)), (true, 1, 2, 3, 4)));
    let c = WidgetConfig::new_from_obj((-5, 6, 7, 8)).clone_config();
    assert!(same_config(&c, (true, -5, 6, 7, 8)));
}

#[test]
fn panel_config_defaults_and_moves() {
    let mut p = WidgetPanelConfig::default();
    assert_eq!((p.visible, p.x, p.y, p.w, p.h), (true, 0, 0, 100, 400));
    p.visible = false;
    panel_move(&mut p, 3, 4, 50, 60);
    assert_eq!((p.visible, p.x, p.y, p.w, p.h), (false, 3, 4, 50, 60));
    let q = p.clone_config();
    assert_eq!((q.visible, q.x, q.y, q.w, q.h), (false, 3, 4, 50, 60));
}

#[test]
fn widget_panel_remembers_visibility() {
    let mut panel: WidgetPanel<u8> = WidgetPanel::new(WidgetPanelConfig::default(), None);
    assert_eq!(panel.eo, 0);
    assert!(panel.visible());
    assert!(panel.create(77));
    assert_eq!(panel.eo, 77);
    panel.set_visible(false);
    assert!(!panel.visible());
    assert_eq!((panel.config.x, panel.config.w), (0, 100));
    let mut hidden = WidgetPanelConfig::default();
    hidden.visible = false;
    let mut panel2: WidgetPanel<u8> = WidgetPanel::new(hidden, None);
    assert!(!panel2.create(5));
}

#[test]
fn window_config_gets_a_view_when_it_has_none() {
    let mut wc: WindowConfig<u32> = WindowConfig::default();
    assert!(wc.views.is_empty());
    assert!(wc.tree.is_none());
    assert!(wc.gameview.is_none());
    assert_eq!((wc.property.w, wc.property.h), (100, 400));
    wc.ensure_view(ViewConfig { window: WidgetConfig::new(), scene: None, camera: 1 });
    assert_eq!(wc.views.len(), 1);
    assert_eq!(wc.views[0].camera, 1);
    wc.ensure_view(ViewConfig { window: WidgetConfig::new(), scene: Some("a.scene".to_string()), camera: 2 });
    assert_eq!(wc.views.len(), 1);
    assert_eq!(wc.views[0].camera, 1);
}

#[test]
fn tree_places_objects_under_their_parents() {
    let mut t = Tree::new(12, &WidgetConfig::with_width_height(200, 300));
    assert_eq!(t.jk_tree, 12);
    assert!(same_config(&t.get_config(), (true, 10, 10, 200, 300)));
    assert_eq!(t.slot_for(None), TreeSlot::Root);
    assert_eq!(t.slot_for(Some(1)), TreeSlot::Missing);
    assert!(t.should_add(1));
    t.record_item(1, 1000);
    t.record_item(2, 0);
    assert!(!t.should_add(1));
    assert!(t.should_add(2));
    assert_eq!(t.slot_for(Some(1)), TreeSlot::Under(1000));
    assert_eq!(t.select(&1), Some(1000));
    assert_eq!(t.update_object(&2), None);
}

#[test]
fn tree_select_and_remove_keep_the_order_of_ids() {
    let mut t = Tree::new(0, &WidgetConfig::new());
    t.record_item(1, 10);
    t.record_item(2, 20);
    t.record_item(3, 30);
    assert_eq!(t.select_objects(vec![3, 9, 1, 3]), vec![30, 10, 30]);
    assert_eq!(t.remove_objects_by_id(vec![2, 9, 2, 1]), vec![20, 10]);
    assert!(t.should_add(1));
    assert!(t.should_add(2));
    assert_eq!(t.select(&3), Some(30));
    t.set_scene(5);
    assert_eq!(t.scene, Some(5));
    assert!(t.should_add(3));
}

#[test]
fn tree_visibility_and_identity() {
    let mut t = Tree::new(0, &WidgetConfig::new());
    let other = Tree::new(0, &WidgetConfig::new());
    assert_ne!(t.get_id(), other.get_id());
    assert!(t.visible());
    t.set_visible(false);
    assert!(!t.visible());
    assert_eq!(t.config.w, 300);
}

#[test]
fn action_bar_records_entries() {
    let mut a = Action::new(3, 8);
    assert_eq!(a.name, "action_name");
    assert_eq!(a.view_id, 8);
    assert!(a.visible());
    assert_eq!(a.entry("x"), None);
    assert_eq!(a.add_entry("x".to_string(), 40), 40);
    assert_eq!(a.entry("x"), Some(40));
    a.add_entry("x".to_string(), 41);
    assert_eq!(a.entry("x"), Some(41));
    a.set_visible(false);
    assert!(!a.visible());
    assert_eq!(a.entry("x"), Some(41));
    assert_ne!(Position::Top, Position::Bottom);
}

#[test]
fn command_list_keeps_its_widget() {
    let c = Command::new(9);
    assert_eq!(c.name, "command_name");
    assert_eq!(c.jk_command, 9);
}
