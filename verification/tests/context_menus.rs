use clack_extensions::common::ClapId;
use clack_extensions::context_menu::{
    add_item_outcome, can_popup_reply, handed_item, menu_call_outcome, MenuCall,
    clap_context_menu_target, handle_host_perform, handle_plugin_perform, ContextMenuBuilder,
    ContextMenuBuilderImpl, ContextMenuError, ContextMenuTarget, HostContextMenuImpl, Item,
    ItemKind, PluginContextMenuImpl,
};

struct RecordingMenu {
    items: Vec<Item>,
    refuse_titles: bool,
}

impl ContextMenuBuilderImpl for RecordingMenu {
    fn supports(&mut self, item_type: ItemKind) -> bool {
        !(self.refuse_titles && item_type == ItemKind::Title)
    }

    fn add_item(&mut self, item: Item) -> Result<(), ContextMenuError> {
        if self.refuse_titles && matches!(item, Item::Title { .. }) {
            return Err(ContextMenuError::Popup);
        }
        self.items.push(item);
        Ok(())
    }
}

fn sample_items() -> Vec<Item> {
    vec![
        Item::Title { title: b"Gain".to_vec(), enabled: true },
        Item::Entry { label: b"Reset".to_vec(), enabled: true, action_id: ClapId::new(1) },
        Item::CheckEntry {
            label: b"Bypass".to_vec(),
            enabled: false,
            checked: true,
            action_id: ClapId::new(2),
        },
        Item::Separator,
        Item::BeginSubmenu { label: b"More".to_vec(), enabled: true },
        Item::Entry { label: Vec::new(), enabled: true, action_id: ClapId::new(0) },
        Item::EndSubmenu,
    ]
}

#[test]
fn builder_hands_over_every_item_unchanged() {
    let mut menu = RecordingMenu { items: Vec::new(), refuse_titles: false };
    {
        let mut builder = ContextMenuBuilder::new(&mut menu);
        for item in sample_items() {
            assert_eq!(builder.add_item(&item), Ok(()));
        }
    }
    assert_eq!(menu.items, sample_items());
}

#[test]
fn builder_reports_failures_as_builder_errors() {
    let mut menu = RecordingMenu { items: Vec::new(), refuse_titles: true };
    let mut builder = ContextMenuBuilder::new(&mut menu);
    let title = Item::Title { title: b"Gain".to_vec(), enabled: true };
    assert_eq!(builder.add_item(&title), Err(ContextMenuError::Builder));
    assert_eq!(builder.add_item(&Item::Separator), Ok(()));
    assert!(!builder.supports(ItemKind::Title));
    assert!(builder.supports(ItemKind::Entry));
    assert_eq!(builder.as_raw_mut().items, vec![Item::Separator]);
}

#[test]
fn item_kinds() {
    let kinds: Vec<ItemKind> = sample_items().iter().map(|i| i.kind()).collect();
    assert_eq!(
        kinds,
        vec![
            ItemKind::Title,
            ItemKind::Entry,
            ItemKind::CheckEntry,
            ItemKind::Separator,
            ItemKind::BeginSubmenu,
            ItemKind::Entry,
            ItemKind::EndSubmenu,
        ]
    );
}

struct Actions {
    performed: Vec<(ContextMenuTarget, u32)>,
}

impl PluginContextMenuImpl for Actions {
    fn populate<B: ContextMenuBuilderImpl>(
        &mut self,
        target: ContextMenuTarget,
        builder: &mut ContextMenuBuilder<'_, B>,
    ) -> Result<(), ()> {
        let label = match target {
            ContextMenuTarget::Global => b"Global".to_vec(),
            ContextMenuTarget::Param(_) => b"Param".to_vec(),
        };
        builder
            .add_item(&Item::Entry { label, enabled: true, action_id: ClapId::new(1) })
            .map_err(|_| ())
    }

    fn perform(&mut self, target: ContextMenuTarget, action_id: ClapId) -> Result<(), ()> {
        if action_id.get() > 10 {
            return Err(());
        }
        self.performed.push((target, action_id.get()));
        Ok(())
    }
}

impl HostContextMenuImpl for Actions {
    fn populate<B: ContextMenuBuilderImpl>(
        &mut self,
        _target: ContextMenuTarget,
        builder: &mut ContextMenuBuilder<'_, B>,
    ) -> Result<(), ()> {
        builder.add_item(&Item::Separator).map_err(|_| ())
    }

    fn perform(&mut self, target: ContextMenuTarget, action_id: ClapId) -> Result<(), ()> {
        self.performed.push((target, action_id.get()));
        Ok(())
    }

    fn can_popup(&mut self) -> bool {
        false
    }

    fn popup(&mut self, _target: ContextMenuTarget, _screen_index: i32, _x: i32, _y: i32) -> Result<(), ()> {
        Err(())
    }
}

#[test]
fn plugin_perform_checks_the_action_id() {
    let mut plugin = Actions { performed: Vec::new() };
    let raw = clap_context_menu_target { kind: 1, id: 4 };
    assert!(!handle_plugin_perform(&mut plugin, Some(&raw), u32::MAX));
    assert!(plugin.performed.is_empty());
    assert!(handle_plugin_perform(&mut plugin, Some(&raw), 3));
    assert!(handle_plugin_perform(&mut plugin, None, 5));
    assert!(!handle_plugin_perform(&mut plugin, None, 11));
    assert_eq!(
        plugin.performed,
        vec![(ContextMenuTarget::Param(ClapId::new(4)), 3), (ContextMenuTarget::Global, 5)]
    );
}

#[test]
fn host_perform_checks_the_action_id() {
    let mut host = Actions { performed: Vec::new() };
    assert!(!handle_host_perform(&mut host, None, u32::MAX));
    assert!(host.performed.is_empty());
    assert!(handle_host_perform(&mut host, None, 0));
    assert_eq!(host.performed, vec![(ContextMenuTarget::Global, 0)]);
    assert!(!HostContextMenuImpl::can_popup(&mut host));
}

#[test]
fn plugin_populates_through_the_builder() {
    let mut plugin = Actions { performed: Vec::new() };
    let mut menu = RecordingMenu { items: Vec::new(), refuse_titles: false };
    let mut builder = ContextMenuBuilder::new(&mut menu);
    assert_eq!(
        PluginContextMenuImpl::populate(&mut plugin, ContextMenuTarget::Param(ClapId::new(2)), &mut builder),
        Ok(())
    );
    assert_eq!(
        menu.items,
        vec![Item::Entry { label: b"Param".to_vec(), enabled: true, action_id: ClapId::new(1) }]
    );
}

#[test]
fn handed_items_are_the_given_ones() {
    for item in sample_items() {
        assert_eq!(handed_item(&item), Some(item));
    }
}

#[test]
fn add_item_outcomes() {
    assert_eq!(add_item_outcome(Ok(())), Ok(()));
    assert_eq!(add_item_outcome(Err(ContextMenuError::Popup)), Err(ContextMenuError::Builder));
}

#[test]
fn menu_call_outcomes() {
    assert_eq!(menu_call_outcome(MenuCall::Populate, Some(true)), Ok(()));
    assert_eq!(menu_call_outcome(MenuCall::Populate, None), Err(ContextMenuError::Builder));
    assert_eq!(menu_call_outcome(MenuCall::Perform, Some(false)), Err(ContextMenuError::ActionFailed));
    assert_eq!(menu_call_outcome(MenuCall::Popup, Some(false)), Err(ContextMenuError::Popup));
    assert_eq!(menu_call_outcome(MenuCall::Popup, None), Err(ContextMenuError::Popup));
    assert!(can_popup_reply(Some(true)));
    assert!(!can_popup_reply(Some(false)));
    assert!(!can_popup_reply(None));
}
