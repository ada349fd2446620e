//! The tray application: its state (the icon with its tooltip and menu), the
//! fixed action table, and the dispatcher that the UI event loop runs for
//! every event it receives. The dispatcher owns all tray state; it decides,
//! and hands the OS effects (open the folder, empty the bin, exit) back to
//! the caller as `MenuAction` requests.

use vstd::prelude::*;

use crate::events::{EventView, MenuAction, StartCause, TrayButton, TrayIconEvent, UserEvent};

verus! {

/// Menu id of the "open the recycle bin" entry.
pub const OPEN_MENU_ID: u32 = 1001;

/// Menu id of the "empty the recycle bin" entry.
pub const CLEAR_MENU_ID: u32 = 1002;

/// Menu id of the "exit" entry.
pub const EXIT_MENU_ID: u32 = 1003;

/// One entry of the tray menu: an opaque numeric id assigned at menu
/// construction, a label, whether it is enabled, and the one action the id
/// stands for.
pub struct MenuItem {
    pub id: u32,
    pub label: String,
    pub enabled: bool,
    pub action: MenuAction,
}

/// The tray context menu: a fixed, small list of entries.
pub struct Menu {
    pub items: Vec<MenuItem>,
}

/// The tray icon as the event loop owns it: the current tooltip text and the
/// attached menu.
pub struct TrayIcon {
    pub tooltip: String,
    pub menu: Menu,
}

/// The single-threaded owner of all UI state. The icon is absent until the
/// event loop signals that it is running.
pub struct Application {
    pub tray_icon: Option<TrayIcon>,
}

/// Mathematical image of a menu entry.
pub ghost struct MenuItemView {
    pub id: u32,
    pub label: Seq<char>,
    pub enabled: bool,
    pub action: MenuAction,
}

/// Mathematical image of the menu: its entries in order.
pub ghost struct MenuView {
    pub items: Seq<MenuItemView>,
}

/// Mathematical image of the tray icon.
pub ghost struct TrayIconView {
    pub tooltip: Seq<char>,
    pub menu: MenuView,
}

/// Mathematical image of the application state.
pub ghost struct AppView {
    pub tray_icon: Option<TrayIconView>,
}

impl View for MenuItem {
    type V = MenuItemView;

    open spec fn view(&self) -> MenuItemView {
        MenuItemView { id: self.id, label: self.label@, enabled: self.enabled, action: self.action }
    }
}

impl View for Menu {
    type V = MenuView;

    open spec fn view(&self) -> MenuView {
        MenuView { items: self.items@.map_values(|it: MenuItem| it@) }
    }
}

impl View for TrayIcon {
    type V = TrayIconView;

    open spec fn view(&self) -> TrayIconView {
        TrayIconView { tooltip: self.tooltip@, menu: self.menu@ }
    }
}

impl View for Application {
    type V = AppView;

    open spec fn view(&self) -> AppView {
        AppView {
            tray_icon: match self.tray_icon {
                Some(t) => Some(t@),
                None => None,
            },
        }
    }
}

/// The fixed tray menu: open, clear, exit, in that order, each enabled,
/// under the ids of the action table.
pub open spec fn spec_tray_menu() -> MenuView {
    MenuView {
        items: seq![
            MenuItemView {
                id: OPEN_MENU_ID,
                label: "Открыть корзину"@,
                enabled: true,
                action: MenuAction::OpenContainer,
            },
            MenuItemView {
                id: CLEAR_MENU_ID,
                label: "Отчистить корзину"@,
                enabled: true,
                action: MenuAction::ClearContainer,
            },
            MenuItemView {
                id: EXIT_MENU_ID,
                label: "Выйти"@,
                enabled: true,
                action: MenuAction::Exit,
            },
        ],
    }
}

/// The tray icon as first constructed: the idle tooltip and the fixed menu.
pub open spec fn spec_tray_icon() -> TrayIconView {
    TrayIconView { tooltip: "Корзиныч"@, menu: spec_tray_menu() }
}

/// The action a menu id stands for, if any: the dispatcher's fixed table.
pub open spec fn spec_menu_action(id: u32) -> Option<MenuAction> {
    if id == OPEN_MENU_ID {
        Some(MenuAction::OpenContainer)
    } else if id == CLEAR_MENU_ID {
        Some(MenuAction::ClearContainer)
    } else if id == EXIT_MENU_ID {
        Some(MenuAction::Exit)
    } else {
        None
    }
}

/// The state after replacing the tooltip text; without an icon there is
/// nothing to update and the state is unchanged.
pub open spec fn spec_set_tooltip(s: AppView, tip: Seq<char>) -> AppView {
    match s.tray_icon {
        Some(t) => AppView { tray_icon: Some(TrayIconView { tooltip: tip, menu: t.menu }) },
        None => s,
    }
}

/// One dispatch step: the state after the event and the OS action it asks
/// for. A left click or the open entry asks to open the bin and touches
/// nothing; the clear entry asks to empty the bin (the outcome is applied
/// separately, by `Application::clear_result`); the exit entry asks to
/// terminate; a tooltip update rewrites the tooltip and asks for nothing.
pub open spec fn spec_dispatch(s: AppView, e: EventView) -> (AppView, Option<MenuAction>) {
    match e {
        EventView::TrayIconEvent(te) => match te {
            TrayIconEvent::Click { button } => if button == TrayButton::Left {
                (s, Some(MenuAction::OpenContainer))
            } else {
                (s, None)
            },
            TrayIconEvent::Other => (s, None),
        },
        EventView::MenuEvent(id) => (s, spec_menu_action(id)),
        EventView::UpdateTooltip(tip) => (spec_set_tooltip(s, tip), None),
    }
}

/// The dispatcher run over a whole event sequence, as the loop executes it:
/// strictly in arrival order, no reordering or coalescing, stopping at the
/// first event that asks to exit.
pub open spec fn spec_run(s: AppView, evs: Seq<EventView>) -> AppView
    decreases evs.len(),
{
    if evs.len() == 0 {
        s
    } else {
        let step = spec_dispatch(s, evs[0]);
        if step.1 == Some(MenuAction::Exit) {
            step.0
        } else {
            spec_run(step.0, evs.subrange(1, evs.len() as int))
        }
    }
}

/// Whether running the dispatcher over `evs` reaches an exit request.
pub open spec fn spec_run_exits(s: AppView, evs: Seq<EventView>) -> bool
    decreases evs.len(),
{
    if evs.len() == 0 {
        false
    } else {
        let step = spec_dispatch(s, evs[0]);
        step.1 == Some(MenuAction::Exit) || spec_run_exits(
            step.0,
            evs.subrange(1, evs.len() as int),
        )
    }
}

/// Law: opening the container neither mutates tray state nor emits a sample.
/// The dispatch step for a left click, or for the open menu entry, returns
/// the state unchanged and asks for nothing but the open action.
pub proof fn lemma_open_preserves_state(s: AppView, e: EventView)
    requires
        e == EventView::MenuEvent(OPEN_MENU_ID) || e == (EventView::TrayIconEvent(
            TrayIconEvent::Click { button: TrayButton::Left },
        )),
    ensures
        spec_dispatch(s, e).0 == s,
        spec_dispatch(s, e).1 == Some(MenuAction::OpenContainer),
{
}

/// Law: selecting "Exit" terminates the run. Once a run reaches an exit
/// request, whatever further events arrive — samples included — they are
/// never processed and the state never changes again.
pub proof fn lemma_exit_stops_dispatch(s: AppView, evs: Seq<EventView>, more: Seq<EventView>)
    requires
        spec_run_exits(s, evs),
    ensures
        spec_run(s, evs + more) == spec_run(s, evs),
    decreases evs.len(),
{
    let step = spec_dispatch(s, evs[0]);
    assert((evs + more)[0] == evs[0]);
    if step.1 == Some(MenuAction::Exit) {
    } else {
        assert((evs + more).subrange(1, (evs + more).len() as int) =~= evs.subrange(
            1,
            evs.len() as int,
        ) + more);
        lemma_exit_stops_dispatch(step.0, evs.subrange(1, evs.len() as int), more);
    }
}

/// Law: a run whose events select "Exit" somewhere reaches an exit request —
/// selecting the exit entry always terminates, whatever state the dispatcher
/// is in and whatever was dispatched before.
pub proof fn lemma_exit_event_exits(s: AppView, evs: Seq<EventView>, i: int)
    requires
        0 <= i < evs.len(),
        evs[i] == EventView::MenuEvent(EXIT_MENU_ID),
    ensures
        spec_run_exits(s, evs),
    decreases evs.len(),
{
    let step = spec_dispatch(s, evs[0]);
    if step.1 != Some(MenuAction::Exit) {
        lemma_exit_event_exits(step.0, evs.subrange(1, evs.len() as int), i - 1);
    }
}

/// Law: each id of the fixed menu maps to exactly one action — the ids are
/// pairwise distinct, so a selection is never ambiguous.
pub proof fn lemma_menu_ids_unique(i: int, j: int)
    requires
        0 <= i < spec_tray_menu().items.len(),
        0 <= j < spec_tray_menu().items.len(),
        spec_tray_menu().items[i].id == spec_tray_menu().items[j].id,
    ensures
        i == j,
{
}

/// Law: the dispatcher agrees with the menu — selecting any entry of the
/// fixed menu yields exactly that entry's action.
pub proof fn lemma_dispatch_follows_menu(s: AppView, i: int)
    requires
        0 <= i < spec_tray_menu().items.len(),
    ensures
        spec_dispatch(s, EventView::MenuEvent(spec_tray_menu().items[i].id)).1 == Some(
            spec_tray_menu().items[i].action,
        ),
{
}

impl Application {
    /// A fresh application: no tray icon yet.
    pub fn new() -> (app: Application)
        ensures
            app@ == (AppView { tray_icon: None::<TrayIconView> }),
    {
        Application { tray_icon: None }
    }

    /// The fixed tray menu, one entry per action.
    pub fn new_tray_menu() -> (menu: Menu)
        ensures
            menu@ == spec_tray_menu(),
    {
        let mut items: Vec<MenuItem> = Vec::new();
        items.push(MenuItem {
            id: OPEN_MENU_ID,
            label: "Открыть корзину".to_owned(),
            enabled: true,
            action: MenuAction::OpenContainer,
        });
        items.push(MenuItem {
            id: CLEAR_MENU_ID,
            label: "Отчистить корзину".to_owned(),
            enabled: true,
            action: MenuAction::ClearContainer,
        });
        items.push(MenuItem {
            id: EXIT_MENU_ID,
            label: "Выйти".to_owned(),
            enabled: true,
            action: MenuAction::Exit,
        });
        let menu = Menu { items };
        proof {
            assert(menu@.items =~= spec_tray_menu().items);
        }
        menu
    }

    /// The tray icon as built once the loop runs: idle tooltip, fixed menu.
    pub fn new_tray_icon() -> (icon: TrayIcon)
        ensures
            icon@ == spec_tray_icon(),
    {
        TrayIcon { tooltip: "Корзиныч".to_owned(), menu: Self::new_tray_menu() }
    }

    /// Called for every wake-up of the event loop. The icon is created on the
    /// first one, once the loop is actually running; any later wake-up leaves
    /// the state alone.
    pub fn new_events(&mut self, cause: StartCause)
        ensures
            cause == StartCause::Init ==> final(self)@ == (AppView {
                tray_icon: Some(spec_tray_icon()),
            }),
            cause != StartCause::Init ==> final(self)@ == old(self)@,
    {
        if cause == StartCause::Init {
            self.tray_icon = Some(Self::new_tray_icon());
        }
    }

    /// The loop's resume notification: nothing to do.
    pub fn resumed(&mut self)
        ensures
            final(self)@ == old(self)@,
    {
    }

    /// Window events: the application has no window, nothing to do.
    pub fn window_event(&mut self)
        ensures
            final(self)@ == old(self)@,
    {
    }

    /// Replace the tooltip text, if the icon exists.
    fn set_tooltip(&mut self, tip: String)
        ensures
            final(self)@ == spec_set_tooltip(old(self)@, tip@),
    {
        match &mut self.tray_icon {
            Some(tray) => {
                tray.tooltip = tip;
            },
            None => {},
        }
    }

    /// The dispatcher: processes one received event, in arrival order, and
    /// returns the OS action it asks the caller to perform, if any.
    pub fn user_event(&mut self, event: UserEvent) -> (action: Option<MenuAction>)
        ensures
            final(self)@ == spec_dispatch(old(self)@, event@).0,
            action == spec_dispatch(old(self)@, event@).1,
    {
        match event {
            UserEvent::TrayIconEvent(te) => match te {
                TrayIconEvent::Click { button } => if button == TrayButton::Left {
                    Some(MenuAction::OpenContainer)
                } else {
                    None
                },
                TrayIconEvent::Other => None,
            },
            UserEvent::MenuEvent(id) => {
                if id == OPEN_MENU_ID {
                    Some(MenuAction::OpenContainer)
                } else if id == CLEAR_MENU_ID {
                    Some(MenuAction::ClearContainer)
                } else if id == EXIT_MENU_ID {
                    Some(MenuAction::Exit)
                } else {
                    None
                }
            },
            UserEvent::UpdateTooltip(tip) => {
                self.set_tooltip(tip);
                None
            },
        }
    }

    /// Apply the outcome of the requested emptying: on success the tooltip is
    /// rewritten at once to show the emptied state (a local cache update, not
    /// re-queried from the poller); on failure the tooltip stays as it was.
    pub fn clear_result(&mut self, ok: bool)
        ensures
            ok ==> final(self)@ == spec_set_tooltip(old(self)@, "Корзина пуста"@),
            !ok ==> final(self)@ == old(self)@,
    {
        if ok {
            self.set_tooltip("Корзина пуста".to_owned());
        }
    }
}

} // verus!
