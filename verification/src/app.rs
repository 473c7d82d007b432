//! The application state: the tabbed collections, the pane-visibility
//! flags, the focus target, the palette and popup overlays, and the
//! transitions the dispatcher drives them through.
//!
//! The state is generic over the caller's editor sessions `E`, terminal
//! sessions `T` and sidebar widgets `S`; the shell's rules never look inside
//! them.  Spawning such a session is an outside effect: a transition that
//! needs one reports it to the caller and changes nothing until the caller
//! hands the new session back through `add_editor_tab` or
//! `add_terminal_tab`.
use crate::command_palette::CommandPalette;
use crate::main_widget::WelcomeWidget;
use crate::notification::NotificationManager;
use crate::popup::Popup;
use crate::secondary_sidebar::HelpWidget;
use crate::settings::Config;
use crate::settings_editor::SettingsEditor;
use crate::tabs::{live_filter, Tab, TabbedCollection};
use crate::{ActiveTarget, MainWidgetContent};
use vstd::prelude::*;
use vstd::string::StringExecFns;

verus! {

/// The whole shell state.
pub struct App<E, T, S> {
    pub config: Config,
    pub active_target: ActiveTarget,
    pub show_primary_sidebar: bool,
    pub show_secondary_sidebar: bool,
    pub show_panel: bool,
    pub show_command_palette: bool,
    pub should_quit: bool,
    pub main_tabs: TabbedCollection<MainWidgetContent<E>>,
    pub terminals: TabbedCollection<T>,
    pub primary_sidebar_components: TabbedCollection<S>,
    pub secondary_sidebar_component: HelpWidget,
    pub command_palette: CommandPalette,
    pub popup: Option<Popup>,
    pub notifications: NotificationManager,
}

impl<E, T, S> App<E, T, S> {
    /// The focus target points at a visible pane; the main content is the
    /// universal fallback and is always a valid target.
    pub open spec fn focus_valid(&self) -> bool {
        match self.active_target {
            ActiveTarget::Editor => true,
            ActiveTarget::Panel => self.show_panel && self.terminals.entries().len() > 0,
            ActiveTarget::PrimarySideBar => self.show_primary_sidebar,
            ActiveTarget::SecondarySideBar => self.show_secondary_sidebar,
        }
    }

    /// Everything of the invariant except that the main content holds a tab.
    pub open spec fn wf_except_main(&self) -> bool {
        &&& self.main_tabs.wf()
        &&& self.terminals.wf()
        &&& self.primary_sidebar_components.wf()
        &&& (self.show_panel ==> self.terminals.entries().len() > 0)
        &&& self.focus_valid()
        &&& self.command_palette.commands_wf()
        &&& self.config.keybindings.global@.len() + 9 <= usize::MAX
    }

    /// The shell invariant: the collections are well formed, the main
    /// content never runs out of tabs, a shown panel holds a terminal, and
    /// the focus points at a visible pane.
    pub open spec fn wf(&self) -> bool {
        &&& self.wf_except_main()
        &&& self.main_tabs.entries().len() > 0
    }

    /// The overlays and configuration are the same in `a` and `b`.
    pub open spec fn same_overlays(a: App<E, T, S>, b: App<E, T, S>) -> bool {
        &&& a.config == b.config
        &&& a.command_palette == b.command_palette
        &&& a.popup == b.popup
        &&& a.notifications == b.notifications
        &&& a.secondary_sidebar_component == b.secondary_sidebar_component
        &&& a.should_quit == b.should_quit
    }

    /// The pane-visibility flags are the same in `a` and `b`.
    pub open spec fn same_panes(a: App<E, T, S>, b: App<E, T, S>) -> bool {
        &&& a.show_primary_sidebar == b.show_primary_sidebar
        &&& a.show_secondary_sidebar == b.show_secondary_sidebar
        &&& a.show_panel == b.show_panel
        &&& a.show_command_palette == b.show_command_palette
    }

    /// The three collections are the same in `a` and `b`.
    pub open spec fn same_collections(a: App<E, T, S>, b: App<E, T, S>) -> bool {
        &&& a.main_tabs == b.main_tabs
        &&& a.terminals == b.terminals
        &&& a.primary_sidebar_components == b.primary_sidebar_components
    }

    /// A fresh shell over a configuration: one welcome tab, the primary
    /// sidebar shown, everything else hidden, focus on the main content.
    /// Sidebar widgets are pushed by the caller afterwards.
    pub fn new(config: Config) -> (r: App<E, T, S>)
        requires
            config.keybindings.global@.len() + 9 <= usize::MAX,
        ensures
            r.wf(),
            r.config == config,
            r.active_target == ActiveTarget::Editor,
            r.show_primary_sidebar,
            !r.show_secondary_sidebar,
            !r.show_panel,
            !r.show_command_palette,
            !r.should_quit,
            r.main_tabs.entries().len() == 1,
            r.main_tabs.entries()[0].title@ == "Welcome"@,
            r.main_tabs.entries()[0].content is Welcome,
            r.main_tabs.active_ix() == 0,
            r.terminals.entries().len() == 0,
            r.primary_sidebar_components.entries().len() == 0,
            r.popup is None,
            r.notifications.notifications@.len() == 0,
    {
        let mut main_tabs: TabbedCollection<MainWidgetContent<E>> = TabbedCollection::new();
        main_tabs.push(
            String::from_str("Welcome"),
            MainWidgetContent::Welcome(WelcomeWidget::new()),
        );
        App {
            config,
            active_target: ActiveTarget::Editor,
            show_primary_sidebar: true,
            show_secondary_sidebar: false,
            show_panel: false,
            show_command_palette: false,
            should_quit: false,
            main_tabs,
            terminals: TabbedCollection::new(),
            primary_sidebar_components: TabbedCollection::new(),
            secondary_sidebar_component: HelpWidget::new(),
            command_palette: CommandPalette::new(),
            popup: Option::None,
            notifications: NotificationManager::new(),
        }
    }

    /// A lone welcome tab is discarded to make room for real content; any
    /// other main content stays.
    fn maybe_replace_welcome_tab(&mut self)
        requires
            old(self).wf(),
        ensures
            final(self).main_tabs.wf(),
            final(self).main_tabs.entries() == if old(self).main_tabs.entries().len() == 1 && old(
                self,
            ).main_tabs.entries()[0].content is Welcome {
                Seq::<Tab<MainWidgetContent<E>>>::empty()
            } else {
                old(self).main_tabs.entries()
            },
            final(self).main_tabs.active_ix() == if old(self).main_tabs.entries().len() == 1
                && old(self).main_tabs.entries()[0].content is Welcome {
                0int
            } else {
                old(self).main_tabs.active_ix()
            },
            final(self).terminals == old(self).terminals,
            final(self).primary_sidebar_components == old(self).primary_sidebar_components,
            final(self).active_target == old(self).active_target,
            Self::same_panes(*final(self), *old(self)),
            Self::same_overlays(*final(self), *old(self)),
    {
        if self.main_tabs.len() == 1 {
            let is_welcome = match &self.main_tabs.get(0).content {
                MainWidgetContent::Welcome(_) => true,
                _ => false,
            };
            if is_welcome {
                self.main_tabs.remove(0);
            }
        }
    }

    /// Appends an editor tab (replacing a lone welcome tab), makes it
    /// active, and focuses the main content.
    pub fn add_editor_tab(&mut self, editor: E, title: String)
        requires
            old(self).wf(),
        ensures
            final(self).wf(),
            final(self).main_tabs.entries() == (if old(self).main_tabs.entries().len() == 1 && old(
                self,
            ).main_tabs.entries()[0].content is Welcome {
                Seq::<Tab<MainWidgetContent<E>>>::empty()
            } else {
                old(self).main_tabs.entries()
            }).push((Tab { title, content: MainWidgetContent::Editor(editor) })),
            final(self).main_tabs.active_ix() == final(self).main_tabs.entries().len() - 1,
            final(self).active_target == ActiveTarget::Editor,
            final(self).terminals == old(self).terminals,
            final(self).primary_sidebar_components == old(self).primary_sidebar_components,
            Self::same_panes(*final(self), *old(self)),
            Self::same_overlays(*final(self), *old(self)),
    {
        self.maybe_replace_welcome_tab();
        self.main_tabs.push(title, MainWidgetContent::Editor(editor));
        self.active_target = ActiveTarget::Editor;
    }

    /// Opens the settings tab, unless one is already open; the new tab
    /// becomes active and the main content takes focus.
    pub fn add_settings_tab(&mut self)
        requires
            old(self).wf(),
        ensures
            final(self).wf(),
            final(self).terminals == old(self).terminals,
            final(self).primary_sidebar_components == old(self).primary_sidebar_components,
            Self::same_panes(*final(self), *old(self)),
            Self::same_overlays(*final(self), *old(self)),
            (exists|i: int|
                0 <= i < old(self).main_tabs.entries().len() && (#[trigger] old(
                    self,
                ).main_tabs.entries()[i]).content is SettingsEditor) ==> *final(self) == *old(
                self,
            ),
            (forall|i: int|
                0 <= i < old(self).main_tabs.entries().len() ==> !((#[trigger] old(
                    self,
                ).main_tabs.entries()[i]).content is SettingsEditor)) ==> {
                &&& final(self).main_tabs.entries() == (if old(self).main_tabs.entries().len()
                    == 1 && old(self).main_tabs.entries()[0].content is Welcome {
                    Seq::<Tab<MainWidgetContent<E>>>::empty()
                } else {
                    old(self).main_tabs.entries()
                }).push(
                    (Tab {
                        title: final(self).main_tabs.entries().last().title,
                        content: final(self).main_tabs.entries().last().content,
                    }),
                )
                &&& final(self).main_tabs.entries().last().title@ == "Settings"@
                &&& final(self).main_tabs.entries().last().content is SettingsEditor
                &&& final(self).main_tabs.active_ix() == final(self).main_tabs.entries().len() - 1
                &&& final(self).active_target == ActiveTarget::Editor
            },
    {
        let n = self.main_tabs.len();
        let mut i: usize = 0;
        while i < n
            invariant
                i <= n,
                n == self.main_tabs.entries().len(),
                old(self).wf(),
                *self == *old(self),
                forall|k: int|
                    0 <= k < i ==> !((#[trigger] self.main_tabs.entries()[k])
                        .content is SettingsEditor),
            decreases n - i,
        {
            let has_settings = match &self.main_tabs.get(i).content {
                MainWidgetContent::SettingsEditor(_) => true,
                _ => false,
            };
            if has_settings {
                return ;
            }
            i += 1;
        }
        self.maybe_replace_welcome_tab();
        self.main_tabs.push(
            String::from_str("Settings"),
            MainWidgetContent::SettingsEditor(SettingsEditor::new()),
        );
        self.active_target = ActiveTarget::Editor;
    }

    /// Appends a terminal tab, makes it active, shows the panel and focuses
    /// it.
    pub fn add_terminal_tab(&mut self, term: T, title: String)
        requires
            old(self).wf(),
        ensures
            final(self).wf(),
            final(self).terminals.entries() == old(self).terminals.entries().push(
                (Tab { title, content: term }),
            ),
            final(self).terminals.active_ix() == final(self).terminals.entries().len() - 1,
            final(self).active_target == ActiveTarget::Panel,
            final(self).show_panel,
            final(self).main_tabs == old(self).main_tabs,
            final(self).primary_sidebar_components == old(self).primary_sidebar_components,
            final(self).show_primary_sidebar == old(self).show_primary_sidebar,
            final(self).show_secondary_sidebar == old(self).show_secondary_sidebar,
            final(self).show_command_palette == old(self).show_command_palette,
            Self::same_overlays(*final(self), *old(self)),
    {
        self.terminals.push(title, term);
        self.active_target = ActiveTarget::Panel;
        self.show_panel = true;
    }

    /// Installs the welcome placeholder in an emptied main content area.
    pub fn show_welcome_screen(&mut self)
        requires
            old(self).wf_except_main(),
            old(self).main_tabs.entries().len() == 0,
        ensures
            final(self).wf(),
            final(self).main_tabs.entries().len() == 1,
            final(self).main_tabs.entries()[0].title@ == "Welcome"@,
            final(self).main_tabs.entries()[0].content is Welcome,
            final(self).main_tabs.active_ix() == 0,
            final(self).terminals == old(self).terminals,
            final(self).primary_sidebar_components == old(self).primary_sidebar_components,
            final(self).active_target == old(self).active_target,
            Self::same_panes(*final(self), *old(self)),
            Self::same_overlays(*final(self), *old(self)),
    {
        self.main_tabs.push(
            String::from_str("Welcome"),
            MainWidgetContent::Welcome(WelcomeWidget::new()),
        );
    }

    /// Closes the active main tab, unless it is the welcome placeholder; an
    /// emptied main content gets the placeholder back.
    pub fn close_active_main_tab(&mut self)
        requires
            old(self).wf(),
        ensures
            final(self).wf(),
            final(self).terminals == old(self).terminals,
            final(self).primary_sidebar_components == old(self).primary_sidebar_components,
            final(self).active_target == old(self).active_target,
            Self::same_panes(*final(self), *old(self)),
            Self::same_overlays(*final(self), *old(self)),
            old(self).main_tabs.entries()[old(self).main_tabs.active_ix()].content is Welcome
                ==> *final(self) == *old(self),
            !(old(self).main_tabs.entries()[old(self).main_tabs.active_ix()].content is Welcome)
                ==> {
                let removed = old(self).main_tabs.entries().remove(old(self).main_tabs.active_ix());
                if removed.len() == 0 {
                    &&& final(self).main_tabs.entries().len() == 1
                    &&& final(self).main_tabs.entries()[0].title@ == "Welcome"@
                    &&& final(self).main_tabs.entries()[0].content is Welcome
                } else {
                    &&& final(self).main_tabs.entries() == removed
                    &&& final(self).main_tabs.active_ix() == if old(self).main_tabs.active_ix()
                        < removed.len() {
                        old(self).main_tabs.active_ix()
                    } else {
                        removed.len() - 1
                    }
                }
            },
    {
        let active = self.main_tabs.active_index();
        let is_welcome = match &self.main_tabs.get(active).content {
            MainWidgetContent::Welcome(_) => true,
            _ => false,
        };
        if is_welcome {
            return ;
        }
        self.main_tabs.remove(active);
        if self.main_tabs.is_empty() {
            self.show_welcome_screen();
        }
    }

    /// Shows and focuses the primary sidebar, hides it when it already has
    /// focus, or moves focus to it.
    pub fn toggle_primary_sidebar(&mut self)
        requires
            old(self).wf(),
        ensures
            final(self).wf(),
            Self::same_collections(*final(self), *old(self)),
            Self::same_overlays(*final(self), *old(self)),
            final(self).show_secondary_sidebar == old(self).show_secondary_sidebar,
            final(self).show_panel == old(self).show_panel,
            final(self).show_command_palette == old(self).show_command_palette,
            if !old(self).show_primary_sidebar {
                final(self).show_primary_sidebar && final(self).active_target
                    == ActiveTarget::PrimarySideBar
            } else if old(self).active_target == ActiveTarget::PrimarySideBar {
                !final(self).show_primary_sidebar && final(self).active_target
                    == ActiveTarget::Editor
            } else {
                final(self).show_primary_sidebar && final(self).active_target
                    == ActiveTarget::PrimarySideBar
            },
    {
        if !self.show_primary_sidebar {
            self.show_primary_sidebar = true;
            self.active_target = ActiveTarget::PrimarySideBar;
        } else if matches!(self.active_target, ActiveTarget::PrimarySideBar) {
            self.show_primary_sidebar = false;
            self.active_target = ActiveTarget::Editor;
        } else {
            self.active_target = ActiveTarget::PrimarySideBar;
        }
    }

    /// Shows and focuses the secondary sidebar, hides it when it already has
    /// focus, or moves focus to it.
    pub fn toggle_secondary_sidebar(&mut self)
        requires
            old(self).wf(),
        ensures
            final(self).wf(),
            Self::same_collections(*final(self), *old(self)),
            Self::same_overlays(*final(self), *old(self)),
            final(self).show_primary_sidebar == old(self).show_primary_sidebar,
            final(self).show_panel == old(self).show_panel,
            final(self).show_command_palette == old(self).show_command_palette,
            if !old(self).show_secondary_sidebar {
                final(self).show_secondary_sidebar && final(self).active_target
                    == ActiveTarget::SecondarySideBar
            } else if old(self).active_target == ActiveTarget::SecondarySideBar {
                !final(self).show_secondary_sidebar && final(self).active_target
                    == ActiveTarget::Editor
            } else {
                final(self).show_secondary_sidebar && final(self).active_target
                    == ActiveTarget::SecondarySideBar
            },
    {
        if !self.show_secondary_sidebar {
            self.show_secondary_sidebar = true;
            self.active_target = ActiveTarget::SecondarySideBar;
        } else if matches!(self.active_target, ActiveTarget::SecondarySideBar) {
            self.show_secondary_sidebar = false;
            self.active_target = ActiveTarget::Editor;
        } else {
            self.active_target = ActiveTarget::SecondarySideBar;
        }
    }

    /// Shows and focuses the panel, hides it when it already has focus, or
    /// moves focus to it.  Showing an empty panel needs a terminal first:
    /// nothing changes and the caller is asked (by the `true` result) to
    /// spawn one and hand it to `add_terminal_tab`, which shows and focuses
    /// the panel itself.
    pub fn toggle_panel(&mut self) -> (needs_terminal: bool)
        requires
            old(self).wf(),
        ensures
            final(self).wf(),
            Self::same_collections(*final(self), *old(self)),
            Self::same_overlays(*final(self), *old(self)),
            final(self).show_primary_sidebar == old(self).show_primary_sidebar,
            final(self).show_secondary_sidebar == old(self).show_secondary_sidebar,
            final(self).show_command_palette == old(self).show_command_palette,
            if !old(self).show_panel {
                if old(self).terminals.entries().len() == 0 {
                    needs_terminal && *final(self) == *old(self)
                } else {
                    !needs_terminal && final(self).show_panel && final(self).active_target
                        == ActiveTarget::Panel
                }
            } else if old(self).active_target == ActiveTarget::Panel {
                !needs_terminal && !final(self).show_panel && final(self).active_target
                    == ActiveTarget::Editor
            } else {
                !needs_terminal && final(self).show_panel == old(self).show_panel && final(self).active_target == ActiveTarget::Panel
            },
    {
        if !self.show_panel {
            if self.terminals.is_empty() {
                return true;
            }
            self.show_panel = true;
            self.active_target = ActiveTarget::Panel;
        } else if matches!(self.active_target, ActiveTarget::Panel) {
            self.show_panel = false;
            self.active_target = ActiveTarget::Editor;
        } else {
            self.active_target = ActiveTarget::Panel;
        }
        false
    }

    /// Closes the active terminal tab; an emptied panel is hidden and focus
    /// moves to the main content.  An empty panel collection is left alone.
    pub fn close_active_terminal_tab(&mut self)
        requires
            old(self).wf(),
        ensures
            final(self).wf(),
            final(self).main_tabs == old(self).main_tabs,
            final(self).primary_sidebar_components == old(self).primary_sidebar_components,
            Self::same_overlays(*final(self), *old(self)),
            final(self).show_primary_sidebar == old(self).show_primary_sidebar,
            final(self).show_secondary_sidebar == old(self).show_secondary_sidebar,
            final(self).show_command_palette == old(self).show_command_palette,
            old(self).terminals.entries().len() == 0 ==> *final(self) == *old(self),
            old(self).terminals.entries().len() > 0 ==> {
                let removed = old(self).terminals.entries().remove(
                    old(self).terminals.active_ix(),
                );
                &&& final(self).terminals.entries() == removed
                &&& if removed.len() == 0 {
                    &&& !final(self).show_panel
                    &&& final(self).active_target == ActiveTarget::Editor
                } else {
                    &&& final(self).show_panel == old(self).show_panel
                    &&& final(self).active_target == old(self).active_target
                    &&& final(self).terminals.active_ix() == if old(self).terminals.active_ix()
                        < removed.len() {
                        old(self).terminals.active_ix()
                    } else {
                        removed.len() - 1
                    }
                }
            },
    {
        if self.terminals.is_empty() {
            return ;
        }
        let active = self.terminals.active_index();
        self.terminals.remove(active);
        if self.terminals.is_empty() {
            self.show_panel = false;
            self.active_target = ActiveTarget::Editor;
        }
    }

    /// Where a focus cycle moves next: through the visible, non-empty
    /// regions in the fixed order main content, panel, primary sidebar,
    /// wrapping; a focus outside that list falls back to the main content.
    pub open spec fn spec_next_focus(app: App<E, T, S>) -> ActiveTarget {
        let has_panel = app.show_panel && app.terminals.entries().len() > 0;
        let has_sidebar = app.show_primary_sidebar;
        match app.active_target {
            ActiveTarget::Editor => if has_panel {
                ActiveTarget::Panel
            } else if has_sidebar {
                ActiveTarget::PrimarySideBar
            } else {
                ActiveTarget::Editor
            },
            ActiveTarget::Panel => if has_sidebar {
                ActiveTarget::PrimarySideBar
            } else {
                ActiveTarget::Editor
            },
            ActiveTarget::PrimarySideBar => ActiveTarget::Editor,
            ActiveTarget::SecondarySideBar => ActiveTarget::Editor,
        }
    }

    /// Advances focus to the next visible region, wrapping.
    pub fn cycle_focus(&mut self)
        requires
            old(self).wf(),
        ensures
            final(self).wf(),
            Self::same_collections(*final(self), *old(self)),
            Self::same_overlays(*final(self), *old(self)),
            Self::same_panes(*final(self), *old(self)),
            final(self).active_target == Self::spec_next_focus(*old(self)),
    {
        let has_panel = self.show_panel && !self.terminals.is_empty();
        let has_sidebar = self.show_primary_sidebar;
        self.active_target = match self.active_target {
            ActiveTarget::Editor => {
                if has_panel {
                    ActiveTarget::Panel
                } else if has_sidebar {
                    ActiveTarget::PrimarySideBar
                } else {
                    ActiveTarget::Editor
                }
            },
            ActiveTarget::Panel => {
                if has_sidebar {
                    ActiveTarget::PrimarySideBar
                } else {
                    ActiveTarget::Editor
                }
            },
            ActiveTarget::PrimarySideBar => ActiveTarget::Editor,
            ActiveTarget::SecondarySideBar => ActiveTarget::Editor,
        };
    }

    /// Cycling focus with the main content alone visible moves nowhere.
    pub proof fn lemma_cycle_focus_single_pane(app: App<E, T, S>)
        requires
            app.wf(),
            !(app.show_panel && app.terminals.entries().len() > 0),
            !app.show_primary_sidebar,
            app.active_target == ActiveTarget::Editor,
        ensures
            Self::spec_next_focus(app) == app.active_target,
    {
    }

    /// The liveness sweep.  The caller reports, for each main tab and each
    /// terminal tab, whether its session has died; dead tabs are removed and
    /// the invariants repaired: an emptied main content gets the welcome
    /// placeholder, an emptied panel is hidden and gives focus back to the
    /// main content.
    pub fn tick(&mut self, main_dead: &Vec<bool>, term_dead: &Vec<bool>)
        requires
            old(self).wf(),
            main_dead@.len() == old(self).main_tabs.entries().len(),
            term_dead@.len() == old(self).terminals.entries().len(),
        ensures
            final(self).wf(),
            Self::same_overlays(*final(self), *old(self)),
            final(self).primary_sidebar_components == old(self).primary_sidebar_components,
            final(self).show_primary_sidebar == old(self).show_primary_sidebar,
            final(self).show_secondary_sidebar == old(self).show_secondary_sidebar,
            final(self).show_command_palette == old(self).show_command_palette,
            ({
                let live_main = live_filter(old(self).main_tabs.entries(), main_dead@);
                if live_main.len() == 0 {
                    &&& final(self).main_tabs.entries().len() == 1
                    &&& final(self).main_tabs.entries()[0].title@ == "Welcome"@
                    &&& final(self).main_tabs.entries()[0].content is Welcome
                    &&& final(self).main_tabs.active_ix() == 0
                } else {
                    &&& final(self).main_tabs.entries() == live_main
                    &&& final(self).main_tabs.active_ix() == if old(self).main_tabs.active_ix()
                        < live_main.len() {
                        old(self).main_tabs.active_ix()
                    } else {
                        live_main.len() - 1
                    }
                }
            }),
            final(self).terminals.entries() == live_filter(
                old(self).terminals.entries(),
                term_dead@,
            ),
            final(self).terminals.active_ix() == if final(self).terminals.entries().len() == 0 {
                0int
            } else if old(self).terminals.active_ix() < final(self).terminals.entries().len() {
                old(self).terminals.active_ix()
            } else {
                final(self).terminals.entries().len() - 1
            },
            final(self).show_panel == (old(self).show_panel && final(self).terminals.entries().len() > 0),
            final(self).active_target == if old(self).active_target == ActiveTarget::Panel
                && final(self).terminals.entries().len() == 0 {
                ActiveTarget::Editor
            } else {
                old(self).active_target
            },
    {
        self.main_tabs.remove_flagged(main_dead);
        if self.main_tabs.is_empty() {
            self.main_tabs.push(
                String::from_str("Welcome"),
                MainWidgetContent::Welcome(WelcomeWidget::new()),
            );
        }
        self.terminals.remove_flagged(term_dead);
        if self.terminals.is_empty() {
            self.show_panel = false;
            if matches!(self.active_target, ActiveTarget::Panel) {
                self.active_target = ActiveTarget::Editor;
            }
        }
    }
}

} // verus!
