//! Which provider to run.

use vstd::prelude::*;

use crate::foreground::config::{
    ForegroundConfig, ForegroundProviderKind, ForegroundSettings,
};
use crate::text;

verus! {

/// A session that `auto` looks for.
#[derive(Debug, Clone, Copy, PartialEq, Eq, Structural)]
pub enum Session {
    Hyprland,
    Sway,
    Gnome,
    Kde,
}

/// Which sessions were found.
#[derive(Debug, Clone, Copy, PartialEq, Eq, Structural)]
pub struct Availability {
    pub hyprland: bool,
    pub sway: bool,
    pub gnome: bool,
    pub kde: bool,
}

impl Availability {
    pub open spec fn has(self, session: Session) -> bool {
        match session {
            Session::Hyprland => self.hyprland,
            Session::Sway => self.sway,
            Session::Gnome => self.gnome,
            Session::Kde => self.kde,
        }
    }
}

/// The provider to start.
#[derive(Debug)]
pub enum ProviderChoice {
    /// None at all, for this reason.
    NoProvider { reason: String },
    Hyprland,
    Sway,
    Gnome,
    Kde { refresh_ms: u64 },
    Command { command: Vec<String>, refresh_ms: u64 },
}

/// The mathematical content of a [`ProviderChoice`].
pub enum ChoiceView {
    NoProvider { reason: Seq<char> },
    Hyprland,
    Sway,
    Gnome,
    Kde { refresh_ms: u64 },
    Command { command: Seq<Seq<char>>, refresh_ms: u64 },
}

impl View for ProviderChoice {
    type V = ChoiceView;

    open spec fn view(&self) -> ChoiceView {
        match *self {
            ProviderChoice::NoProvider { reason } => ChoiceView::NoProvider { reason: reason@ },
            ProviderChoice::Hyprland => ChoiceView::Hyprland,
            ProviderChoice::Sway => ChoiceView::Sway,
            ProviderChoice::Gnome => ChoiceView::Gnome,
            ProviderChoice::Kde { refresh_ms } => ChoiceView::Kde { refresh_ms },
            ProviderChoice::Command { command, refresh_ms } => ChoiceView::Command {
                command: text::texts(command@),
                refresh_ms,
            },
        }
    }
}

/// A step of the selection: either a session has to be looked for, or the
/// choice is made.
#[derive(Debug)]
pub enum Selection {
    LookFor(Session),
    Chosen(ProviderChoice),
}

/// The mathematical content of a [`Selection`].
pub enum SelectionView {
    LookFor(Session),
    Chosen(ChoiceView),
}

impl View for Selection {
    type V = SelectionView;

    open spec fn view(&self) -> SelectionView {
        match *self {
            Selection::LookFor(session) => SelectionView::LookFor(session),
            Selection::Chosen(choice) => SelectionView::Chosen(choice@),
        }
    }
}

/// The provider of a session.
pub open spec fn provider_of(session: Session, cfg: ForegroundSettings) -> ChoiceView {
    match session {
        Session::Hyprland => ChoiceView::Hyprland,
        Session::Sway => ChoiceView::Sway,
        Session::Gnome => ChoiceView::Gnome,
        Session::Kde => ChoiceView::Kde { refresh_ms: cfg.command_refresh_ms },
    }
}

/// The provider that runs the configured command.
pub open spec fn command_provider(cfg: ForegroundSettings) -> ChoiceView {
    ChoiceView::Command { command: cfg.command, refresh_ms: cfg.command_refresh_ms }
}

/// What is left when no session was found: the command, where there is one.
pub open spec fn fallback(cfg: ForegroundSettings) -> ChoiceView {
    if cfg.command.len() > 0 {
        command_provider(cfg)
    } else {
        ChoiceView::NoProvider { reason: "no compositor environment detected"@ }
    }
}

/// The provider for the first session that was found, in the order Hyprland,
/// Sway, GNOME, KDE; else the fallback.
pub open spec fn auto_selected(cfg: ForegroundSettings, found: Availability) -> ChoiceView {
    if found.hyprland {
        provider_of(Session::Hyprland, cfg)
    } else if found.sway {
        provider_of(Session::Sway, cfg)
    } else if found.gnome {
        provider_of(Session::Gnome, cfg)
    } else if found.kde {
        provider_of(Session::Kde, cfg)
    } else {
        fallback(cfg)
    }
}

/// The provider that the configuration asks for.
pub open spec fn selected(cfg: ForegroundSettings, found: Availability) -> ChoiceView {
    match cfg.provider {
        ForegroundProviderKind::NoProvider => ChoiceView::NoProvider {
            reason: "provider set to none"@,
        },
        ForegroundProviderKind::Hyprland => provider_of(Session::Hyprland, cfg),
        ForegroundProviderKind::Sway => provider_of(Session::Sway, cfg),
        ForegroundProviderKind::Gnome => provider_of(Session::Gnome, cfg),
        ForegroundProviderKind::Kde => provider_of(Session::Kde, cfg),
        ForegroundProviderKind::Command => command_provider(cfg),
        ForegroundProviderKind::Auto => auto_selected(cfg, found),
    }
}

/// The session to look for after `session`.
pub open spec fn next_session(session: Session) -> Option<Session> {
    match session {
        Session::Hyprland => Some(Session::Sway),
        Session::Sway => Some(Session::Gnome),
        Session::Gnome => Some(Session::Kde),
        Session::Kde => None,
    }
}

/// The first step of the selection.
pub open spec fn first_step(cfg: ForegroundSettings) -> SelectionView {
    if cfg.provider == ForegroundProviderKind::Auto {
        SelectionView::LookFor(Session::Hyprland)
    } else {
        SelectionView::Chosen(
            selected(
                cfg,
                Availability { hyprland: false, sway: false, gnome: false, kde: false },
            ),
        )
    }
}

/// The step after `session` was looked for.
pub open spec fn later_step(
    cfg: ForegroundSettings,
    session: Session,
    available: bool,
) -> SelectionView {
    if available {
        SelectionView::Chosen(provider_of(session, cfg))
    } else {
        match next_session(session) {
            Some(next) => SelectionView::LookFor(next),
            None => SelectionView::Chosen(fallback(cfg)),
        }
    }
}

fn copied_texts(list: &Vec<String>) -> (r: Vec<String>)
    ensures
        text::texts(r@) == text::texts(list@),
{
    let mut out: Vec<String> = Vec::new();
    let mut i: usize = 0;
    while i < list.len()
        invariant
            i <= list@.len(),
            out@.len() == i,
            forall|j: int| 0 <= j < i ==> (#[trigger] out@[j])@ == list@[j]@,
        decreases list@.len() - i,
    {
        out.push(list[i].clone());
        i += 1;
    }
    assert(text::texts(out@) =~= text::texts(list@));
    out
}

fn command_choice(cfg: &ForegroundConfig) -> (r: ProviderChoice)
    ensures
        r@ == command_provider(cfg@),
{
    ProviderChoice::Command {
        command: copied_texts(&cfg.command),
        refresh_ms: cfg.command_refresh_ms,
    }
}

fn session_choice(session: Session, cfg: &ForegroundConfig) -> (r: ProviderChoice)
    ensures
        r@ == provider_of(session, cfg@),
{
    match session {
        Session::Hyprland => ProviderChoice::Hyprland,
        Session::Sway => ProviderChoice::Sway,
        Session::Gnome => ProviderChoice::Gnome,
        Session::Kde => ProviderChoice::Kde { refresh_ms: cfg.command_refresh_ms },
    }
}

fn fallback_choice(cfg: &ForegroundConfig) -> (r: ProviderChoice)
    ensures
        r@ == fallback(cfg@),
{
    if cfg.command.len() > 0 {
        command_choice(cfg)
    } else {
        ProviderChoice::NoProvider { reason: "no compositor environment detected".to_owned() }
    }
}

/// The provider for the resolved config, applying auto-detection when
/// `provider = "auto"`.
#[must_use]
pub fn select_provider(cfg: &ForegroundConfig, found: &Availability) -> (r: ProviderChoice)
    ensures
        r@ == selected(cfg@, *found),
{
    match cfg.provider {
        ForegroundProviderKind::NoProvider => ProviderChoice::NoProvider {
            reason: "provider set to none".to_owned(),
        },
        ForegroundProviderKind::Hyprland => session_choice(Session::Hyprland, cfg),
        ForegroundProviderKind::Sway => session_choice(Session::Sway, cfg),
        ForegroundProviderKind::Gnome => session_choice(Session::Gnome, cfg),
        ForegroundProviderKind::Kde => session_choice(Session::Kde, cfg),
        ForegroundProviderKind::Command => command_choice(cfg),
        ForegroundProviderKind::Auto => auto_select(cfg, found),
    }
}

fn auto_select(cfg: &ForegroundConfig, found: &Availability) -> (r: ProviderChoice)
    ensures
        r@ == auto_selected(cfg@, *found),
{
    if found.hyprland {
        session_choice(Session::Hyprland, cfg)
    } else if found.sway {
        session_choice(Session::Sway, cfg)
    } else if found.gnome {
        session_choice(Session::Gnome, cfg)
    } else if found.kde {
        session_choice(Session::Kde, cfg)
    } else {
        fallback_choice(cfg)
    }
}

/// Begins the selection one look at a time, so that no session is looked for
/// after one was found.
pub fn begin_selection(cfg: &ForegroundConfig) -> (r: Selection)
    ensures
        r@ == first_step(cfg@),
{
    if cfg.provider == ForegroundProviderKind::Auto {
        Selection::LookFor(Session::Hyprland)
    } else {
        Selection::Chosen(
            select_provider(
                cfg,
                &Availability { hyprland: false, sway: false, gnome: false, kde: false },
            ),
        )
    }
}

/// The selection for a filter that may be off: that one needs no provider.
pub fn begin_filter_selection(cfg: &ForegroundConfig) -> (r: Selection)
    ensures
        r@ == (if cfg@.enabled {
            first_step(cfg@)
        } else {
            SelectionView::Chosen(
                ChoiceView::NoProvider { reason: "foreground filter disabled"@ },
            )
        }),
{
    if cfg.enabled {
        begin_selection(cfg)
    } else {
        Selection::Chosen(
            ProviderChoice::NoProvider { reason: "foreground filter disabled".to_owned() },
        )
    }
}

/// Goes on with the selection once `session` was looked for.
pub fn resume_selection(cfg: &ForegroundConfig, session: Session, available: bool) -> (r: Selection)
    ensures
        r@ == later_step(cfg@, session, available),
{
    if available {
        return Selection::Chosen(session_choice(session, cfg));
    }
    match session {
        Session::Hyprland => Selection::LookFor(Session::Sway),
        Session::Sway => Selection::LookFor(Session::Gnome),
        Session::Gnome => Selection::LookFor(Session::Kde),
        Session::Kde => Selection::Chosen(fallback_choice(cfg)),
    }
}

/// The choice that the selection comes to, one look at a time.
pub open spec fn outcome(
    cfg: ForegroundSettings,
    found: Availability,
    step: SelectionView,
) -> ChoiceView
    decreases
            (match step {
                SelectionView::Chosen(_) => 0int,
                SelectionView::LookFor(Session::Kde) => 1int,
                SelectionView::LookFor(Session::Gnome) => 2int,
                SelectionView::LookFor(Session::Sway) => 3int,
                SelectionView::LookFor(Session::Hyprland) => 4int,
            }),
{
    match step {
        SelectionView::Chosen(choice) => choice,
        SelectionView::LookFor(session) => outcome(
            cfg,
            found,
            later_step(cfg, session, found.has(session)),
        ),
    }
}

/// Looking for one session at a time comes to the same choice as looking for
/// all of them first.
pub proof fn law_selection_agrees(cfg: ForegroundSettings, found: Availability)
    ensures
        outcome(cfg, found, first_step(cfg)) == selected(cfg, found),
{
    reveal_with_fuel(outcome, 6);
}

/// Where the configuration names a provider, that one is chosen, whatever was
/// found; `none` chooses none.
pub proof fn law_named_provider_is_chosen(cfg: ForegroundSettings, found: Availability)
    ensures
        cfg.provider == ForegroundProviderKind::Hyprland ==> selected(cfg, found) is Hyprland,
        cfg.provider == ForegroundProviderKind::Sway ==> selected(cfg, found) is Sway,
        cfg.provider == ForegroundProviderKind::Gnome ==> selected(cfg, found) is Gnome,
        cfg.provider == ForegroundProviderKind::Kde ==> selected(cfg, found) == (ChoiceView::Kde {
            refresh_ms: cfg.command_refresh_ms,
        }),
        cfg.provider == ForegroundProviderKind::Command ==> selected(cfg, found) == (
        ChoiceView::Command { command: cfg.command, refresh_ms: cfg.command_refresh_ms }),
        cfg.provider == ForegroundProviderKind::NoProvider ==> selected(cfg, found) is NoProvider,
{
}

/// Where the provider is to be found out, Hyprland goes before Sway, Sway before
/// GNOME and GNOME before KDE; only where none of them was found, the command is
/// run, where there is one.
pub proof fn law_sessions_go_in_order(cfg: ForegroundSettings, found: Availability)
    requires
        cfg.provider == ForegroundProviderKind::Auto,
    ensures
        selected(cfg, found) is Hyprland <==> found.hyprland,
        selected(cfg, found) is Sway <==> !found.hyprland && found.sway,
        selected(cfg, found) is Gnome <==> !found.hyprland && !found.sway && found.gnome,
        selected(cfg, found) is Kde <==> !found.hyprland && !found.sway && !found.gnome
            && found.kde,
        selected(cfg, found) is Command <==> !found.hyprland && !found.sway && !found.gnome
            && !found.kde && cfg.command.len() > 0,
        selected(cfg, found) is NoProvider <==> !found.hyprland && !found.sway && !found.gnome
            && !found.kde && cfg.command.len() == 0,
        selected(cfg, found) matches ChoiceView::Kde { refresh_ms } ==> refresh_ms
            == cfg.command_refresh_ms,
        selected(cfg, found) matches ChoiceView::Command { command, refresh_ms } ==> command
            == cfg.command && refresh_ms == cfg.command_refresh_ms,
{
}

/// Sessions are looked for one after another, in that order, and not at all
/// where the configuration names a provider; the first that is there is chosen
/// without looking any further.
pub proof fn law_no_needless_looks(cfg: ForegroundSettings, session: Session)
    ensures
        first_step(cfg) is LookFor <==> cfg.provider == ForegroundProviderKind::Auto,
        later_step(cfg, session, true) is Chosen,
        later_step(cfg, Session::Hyprland, false) == SelectionView::LookFor(Session::Sway),
        later_step(cfg, Session::Sway, false) == SelectionView::LookFor(Session::Gnome),
        later_step(cfg, Session::Gnome, false) == SelectionView::LookFor(Session::Kde),
        later_step(cfg, Session::Kde, false) is Chosen,
        cfg.provider == ForegroundProviderKind::Auto ==> first_step(cfg) == SelectionView::LookFor(
            Session::Hyprland,
        ),
{
}

/// The content of a choice is that of its fields.
pub proof fn law_choices_show_their_fields(choice: ProviderChoice)
    ensures
        choice is NoProvider <==> choice@ is NoProvider,
        choice is Hyprland <==> choice@ is Hyprland,
        choice is Sway <==> choice@ is Sway,
        choice is Gnome <==> choice@ is Gnome,
        choice matches ProviderChoice::NoProvider { reason } ==> choice@ == (
        ChoiceView::NoProvider { reason: reason@ }),
        choice matches ProviderChoice::Kde { refresh_ms } ==> choice@ == (ChoiceView::Kde {
            refresh_ms,
        }),
        choice matches ProviderChoice::Command { command, refresh_ms } ==> choice@ == (
        ChoiceView::Command { command: text::texts(command@), refresh_ms }),
{
}

/// The content of a step is that of the session or of the choice in it.
pub proof fn law_steps_show_their_content(step: Selection)
    ensures
        step matches Selection::LookFor(session) ==> step@ == SelectionView::LookFor(session),
        step matches Selection::Chosen(choice) ==> step@ == SelectionView::Chosen(choice@),
{
}

} // verus!
