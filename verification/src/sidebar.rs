//! Project sidebar.

use vstd::prelude::*;
use crate::draw;
use crate::draw::{Block, Borders, Canvas, Color, Draw, Line, Lines, Rect, Span, Style, Theme};
use crate::state;
use crate::state::{AppState, Project, ProjectStatus};
use crate::text;

verus! {

/// The icon of each status of a project.
#[derive(Clone, Debug, PartialEq, Eq)]
pub struct ProjectIcons {
    pub disconnected: String,
    pub idle: String,
    pub working: String,
    pub question: String,
    pub done: String,
    pub error: String,
    pub hung: String,
}

impl ProjectIcons {
    /// The icon of a status.
    pub open spec fn of(&self, status: ProjectStatus) -> Seq<char> {
        match status {
            ProjectStatus::Disconnected => self.disconnected@,
            ProjectStatus::Idle => self.idle@,
            ProjectStatus::Working => self.working@,
            ProjectStatus::Question => self.question@,
            ProjectStatus::Done => self.done@,
            ProjectStatus::Error => self.error@,
            ProjectStatus::Hung => self.hung@,
        }
    }

    /// The icon of a status.
    pub fn icon(&self, status: ProjectStatus) -> (r: &str)
        ensures
            r@ == self.of(status),
    {
        match status {
            ProjectStatus::Disconnected => self.disconnected.as_str(),
            ProjectStatus::Idle => self.idle.as_str(),
            ProjectStatus::Working => self.working.as_str(),
            ProjectStatus::Question => self.question.as_str(),
            ProjectStatus::Done => self.done.as_str(),
            ProjectStatus::Error => self.error.as_str(),
            ProjectStatus::Hung => self.hung.as_str(),
        }
    }
}

/// The color of the icon.
pub open spec fn icon_color(status: ProjectStatus, theme: Theme) -> Color {
    match status {
        ProjectStatus::Working => theme.working,
        ProjectStatus::Error => theme.error,
        ProjectStatus::Question => theme.question,
        ProjectStatus::Done => theme.done,
        ProjectStatus::Hung => Color::Rgb(255, 87, 34),
        _ => Color::DarkGray,
    }
}

fn color_of(status: ProjectStatus, theme: Theme) -> (r: Color)
    ensures
        r == icon_color(status, theme),
{
    match status {
        ProjectStatus::Working => theme.working,
        ProjectStatus::Error => theme.error,
        ProjectStatus::Question => theme.question,
        ProjectStatus::Done => theme.done,
        ProjectStatus::Hung => Color::Rgb(255, 87, 34),
        _ => Color::DarkGray,
    }
}

/// The name of a project in a sidebar of the given inner width: one that is too
/// long ends in dots.
pub open spec fn shown_name(name: Seq<char>, width: u16) -> Seq<char> {
    let max = if width > 4 {
        width - 4
    } else {
        0
    };
    if name.len() > max {
        text::first(
            name,
            if max > 3 {
                max - 3
            } else {
                0
            },
        ) + "..."@
    } else {
        name
    }
}

fn name_of(name: &str, width: u16) -> (r: String)
    ensures
        r@ == shown_name(name@, width),
{
    let max: usize = if width > 4 {
        (width - 4) as usize
    } else {
        0
    };
    if name.unicode_len() > max {
        let keep: usize = if max > 3 {
            max - 3
        } else {
            0
        };
        let mut out = text::take(name, keep);
        out.append("...");
        out
    } else {
        name.to_owned()
    }
}

/// A project name never takes more columns than its row has behind the icon,
/// as long as the dots themselves have room.
pub proof fn law_names_fit(name: Seq<char>, width: u16)
    requires
        width >= 7,
    ensures
        shown_name(name, width).len() <= width - 4,
{
    reveal_strlit("...");
}

/// The frame of the sidebar.
pub open spec fn sidebar_block() -> Block<Seq<char>> {
    Block::<Seq<char>>::new(Borders::open_below(), Style::fg(Color::DarkGray)).titled(
        draw::sp(" Projects "@, Style::bold(Color::White)),
    )
}

/// The line of a project: its icon and its name, the active one in bold.
pub open spec fn project_line(
    project: Project,
    active: Option<Seq<char>>,
    width: u16,
    icons: ProjectIcons,
    theme: Theme,
) -> Seq<Span<Seq<char>>> {
    draw::blank().push(
        draw::sp(icons.of(project.status), Style::fg(icon_color(project.status, theme))),
    ).push(
        draw::sp(
            " "@ + shown_name(project.name@, width),
            if active == Some(project.id@) {
                Style::bold(Color::Cyan)
            } else {
                Style::fg(Color::White)
            },
        ),
    )
}

/// Where the line of project `i` stands.
pub open spec fn project_row(inner: Rect, i: int) -> Rect {
    Rect {
        x: draw::beside(inner.x, 1),
        y: (inner.y + i) as u16,
        width: if inner.width > 2 {
            (inner.width - 2) as u16
        } else {
            0
        },
        height: 1,
    }
}

/// How many projects are shown: as many as there are rows.
pub open spec fn shown_count(projects: nat, height: u16) -> nat {
    if projects < height {
        projects
    } else {
        height as nat
    }
}

/// The lines of the projects, one below the other.
pub open spec fn project_rows(
    state: AppState,
    inner: Rect,
    icons: ProjectIcons,
    theme: Theme,
) -> draw::Drawn {
    let projects = state.project_registry.projects@;
    Seq::new(
        shown_count(projects.len(), inner.height),
        |i: int|
            draw::text_at(
                project_row(inner, i),
                draw::only(
                    project_line(
                        projects[i],
                        state::opt_view(state.project_registry.active_project_id),
                        inner.width,
                        icons,
                        theme,
                    ),
                ),
                Style::plain(),
            ),
    )
}

/// What is drawn for the sidebar.
pub open spec fn sidebar_drawn(
    before: draw::Drawn,
    area: Rect,
    state: AppState,
    icons: ProjectIcons,
    theme: Theme,
) -> draw::Drawn {
    let inner = area.bordered(Borders::open_below());
    let framed = before.push(Draw::Block { area, block: sidebar_block() });
    if state.project_registry.projects@.len() == 0 {
        framed.push(
            draw::text_in_the_middle(
                inner,
                draw::plain_word("No projects"@),
                Style::fg(Color::DarkGray),
            ),
        )
    } else {
        framed + project_rows(state, inner, icons, theme)
    }
}

/// Render the project sidebar in the given area.
pub fn render_sidebar(
    canvas: &mut Canvas,
    area: Rect,
    state: &AppState,
    icons: &ProjectIcons,
    theme: Theme,
)
    requires
        area.fits(),
    ensures
        final(canvas)@ == sidebar_drawn(old(canvas)@, area, *state, *icons, theme),
{
    canvas.block(
        area,
        Block::new(Borders::open_below(), Style::fg(Color::DarkGray)).titled(
            draw::span(" Projects ", Style::bold(Color::White)),
        ),
    );
    let inner = area.within(Borders::open_below());
    let projects = &state.project_registry.projects;
    if projects.len() == 0 {
        canvas.middle(
            inner,
            Lines::of(Line::of("No projects", Style::plain())),
            Style::fg(Color::DarkGray),
        );
        return;
    }
    let ghost framed = canvas@;
    let ghost want = project_rows(*state, inner, *icons, theme);
    let width: u16 = if inner.width > 2 {
        inner.width - 2
    } else {
        0
    };
    let mut i: usize = 0;
    proof {
        assert(framed + want.take(0) =~= framed);
    }
    while i < projects.len() && i < inner.height as usize
        invariant
            i <= projects@.len(),
            i <= inner.height,
            inner.fits(),
            projects == &state.project_registry.projects,
            width == if inner.width > 2 {
                inner.width - 2
            } else {
                0
            },
            want == project_rows(*state, inner, *icons, theme),
            canvas@ == framed + want.take(i as int),
        decreases projects@.len() - i,
    {
        let project = &projects[i];
        let style = if state::opt_is(
            &state.project_registry.active_project_id,
            project.id.as_str(),
        ) {
            Style::bold(Color::Cyan)
        } else {
            Style::fg(Color::White)
        };
        let name = text::join2(" ", name_of(project.name.as_str(), inner.width).as_str());
        let line = Line::of(
            icons.icon(project.status),
            Style::fg(color_of(project.status, theme)),
        ).with(name.as_str(), style);
        let row = Rect {
            x: draw::right_of(inner.x, 1),
            y: inner.y + i as u16,
            width,
            height: 1,
        };
        canvas.line(row, line);
        proof {
            assert(framed + want.take(i + 1) =~= (framed + want.take(i as int)).push(
                want[i as int],
            ));
        }
        i += 1;
    }
    proof {
        assert(want.take(i as int) =~= want);
    }
}

/// A project has the icon of its status, in the color of the status: of errors
/// where something failed, of questions where something is asked, of work and of
/// what is done.
pub proof fn law_projects_look_like_their_status(
    icons: ProjectIcons,
    status: ProjectStatus,
    theme: Theme,
)
    ensures
        status is Error ==> icons.of(status) == icons.error@ && icon_color(status, theme)
            == theme.error,
        status is Question ==> icons.of(status) == icons.question@ && icon_color(status, theme)
            == theme.question,
        status is Working ==> icons.of(status) == icons.working@ && icon_color(status, theme)
            == theme.working,
        status is Done ==> icons.of(status) == icons.done@ && icon_color(status, theme)
            == theme.done,
        status is Hung ==> icons.of(status) == icons.hung@,
        status is Idle ==> icons.of(status) == icons.idle@ && icon_color(status, theme)
            == Color::DarkGray,
        status is Disconnected ==> icons.of(status) == icons.disconnected@ && icon_color(
            status,
            theme,
        ) == Color::DarkGray,
{
}

/// The active project stands out in bold, and no other does; every line shows the
/// icon and the name of its project.
pub proof fn law_active_project_stands_out(
    project: Project,
    active: Option<Seq<char>>,
    width: u16,
    icons: ProjectIcons,
    theme: Theme,
)
    requires
        project.name@.len() + 4 <= width,
    ensures
        ({
            let spans = project_line(project, active, width, icons, theme);
            &&& spans.len() == 2
            &&& spans[0].text == icons.of(project.status)
            &&& spans[1].text == " "@ + project.name@
            &&& spans[1].style.bold <==> active == Some(project.id@)
        }),
{
}

} // verus!
