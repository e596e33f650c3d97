//! Visual styles: fills, backgrounds, style sheets, and the interaction
//! driven style wrapper that swaps sheets on hover, press and focus.

use vstd::prelude::*;
use crate::geom::{Size, Rect, Vec2, max_i64, COORD_LIMIT};
use crate::paint::{Painter, PaintCmd, Color};
use crate::event::Event;
use crate::widgets::wrap::{Wrapper, WrapperResponse};

verus! {

/// How an area is filled.
#[derive(Clone, Copy, PartialEq, Eq, Structural, Debug)]
pub enum Fill {
    Solid(Color),
}

/// A filled, optionally rounded background.
#[derive(Clone, Copy, PartialEq, Eq, Structural, Debug)]
pub struct Background {
    pub color: Fill,
    pub corner_radius: i64,
}

impl Background {
    /// A square-cornered background of one color.
    pub fn from_color(color: Color) -> (r: Background)
        ensures
            r.color == Fill::Solid(color),
            r.corner_radius == 0,
    {
        Background { color: Fill::Solid(color), corner_radius: 0 }
    }

    /// Paints the background over `rect`.
    pub fn draw(&self, painter: &mut Painter, rect: Rect)
        requires
            rect.wf(),
            old(painter).wf(),
        ensures
            final(painter).wf(),
            final(painter).offset == old(painter).offset,
            final(painter).saved@ == old(painter).saved@,
            final(painter).cmds@ == old(painter).cmds@.push(
                PaintCmd::FillRect {
                    rect: rect.spec_translate(old(painter).offset),
                    color: spec_fill_color(self.color),
                    corner_radius: self.corner_radius,
                },
            ),
    {
        let Fill::Solid(color) = self.color;
        painter.fill_rect(rect, color, self.corner_radius);
    }
}

/// One visual sheet: spacing amounts, a border and a background.
#[derive(Clone, Copy, PartialEq, Eq, Structural, Debug)]
pub struct Style {
    pub margin: i64,
    pub padding: i64,
    pub border: i64,
    pub border_fill: Fill,
    pub background: Option<Background>,
    pub corners: i64,
}

/// The solid color behind a fill.
pub open spec fn spec_fill_color(f: Fill) -> Color {
    match f {
        Fill::Solid(c) => c,
    }
}

/// The rectangle a sheet's background fills: the widget inset by the
/// margin, degenerating to a point once the margin exceeds the size.
pub open spec fn spec_back_rect(style: Style, size: Size) -> Rect {
    Rect {
        x0: style.margin,
        y0: style.margin,
        x1: if size.width - style.margin >= style.margin {
            (size.width - style.margin) as i64
        } else {
            style.margin
        },
        y1: if size.height - style.margin >= style.margin {
            (size.height - style.margin) as i64
        } else {
            style.margin
        },
    }
}

/// The rectangle a sheet's border line is centered on.
pub open spec fn spec_border_rect(style: Style, size: Size) -> Rect {
    let center = style.margin + style.border / 2;
    Rect {
        x0: center as i64,
        y0: center as i64,
        x1: if size.width - center >= center {
            (size.width - center) as i64
        } else {
            center as i64
        },
        y1: if size.height - center >= center {
            (size.height - center) as i64
        } else {
            center as i64
        },
    }
}

/// The commands painting a sheet appends to `cmds` under the
/// widget-to-window offset: the background fill if one is set, then the
/// border stroke if the border has any width.
pub open spec fn spec_style_cmds(
    style: Style,
    size: Size,
    offset: Vec2,
    cmds: Seq<PaintCmd>,
) -> Seq<PaintCmd> {
    let with_bg = match style.background {
        Some(b) => cmds.push(
            PaintCmd::FillRect {
                rect: spec_back_rect(style, size).spec_translate(offset),
                color: spec_fill_color(b.color),
                corner_radius: style.corners,
            },
        ),
        None => cmds,
    };
    if style.border >= 1 {
        with_bg.push(
            PaintCmd::StrokeRect {
                rect: spec_border_rect(style, size).spec_translate(offset),
                color: spec_fill_color(style.border_fill),
                line_width: style.border,
                corner_radius: style.corners,
            },
        )
    } else {
        with_bg
    }
}

impl Style {
    /// Spacing amounts within range.
    pub open spec fn wf(self) -> bool {
        &&& 0 <= self.margin <= 0xFFFF_FFFF
        &&& 0 <= self.padding <= 0xFFFF_FFFF
        &&& 0 <= self.border <= 0xFFFF_FFFF
        &&& 0 <= self.corners <= 0xFFFF_FFFF
    }

    /// Paints the sheet over a widget of `size`: the background inside
    /// the margin, then the border centered on its line.
    pub fn draw(&self, painter: &mut Painter, size: Size)
        requires
            self.wf(),
            size.wf(),
            old(painter).wf(),
        ensures
            final(painter).wf(),
            final(painter).offset == old(painter).offset,
            final(painter).saved@ == old(painter).saved@,
            final(painter).cmds@ == spec_style_cmds(
                *self,
                size,
                old(painter).offset,
                old(painter).cmds@,
            ),
    {
        if let Some(background) = self.background {
            let back = Rect {
                x0: self.margin,
                y0: self.margin,
                x1: max_i64(size.width - self.margin, self.margin),
                y1: max_i64(size.height - self.margin, self.margin),
            };
            let styled = Background { color: background.color, corner_radius: self.corners };
            styled.draw(painter, back);
        }
        if self.border >= 1 {
            let center = self.margin + ((self.border as u64 / 2) as i64);
            let border = Rect {
                x0: center,
                y0: center,
                x1: max_i64(size.width - center, center),
                y1: max_i64(size.height - center, center),
            };
            let Fill::Solid(color) = self.border_fill;
            painter.stroke_rect(border, color, self.border, self.corners);
        }
    }

    /// The inset the sheet claims around its content.
    pub fn full_padding(&self) -> (r: i64)
        requires
            self.wf(),
        ensures
            r == self.padding + self.border + self.margin,
            0 <= r <= COORD_LIMIT,
    {
        self.padding + self.border + self.margin
    }
}

/// The named interaction variants of a style.
#[derive(Clone, Copy, PartialEq, Eq, Structural, Debug)]
pub enum Sheet {
    Idle,
    Focused,
    Hovered,
    HoveredFocused,
    Pressed,
    Active,
}

/// Where the pointer stands relative to the styled widget.
#[derive(Clone, Copy, PartialEq, Eq, Structural, Debug)]
pub enum MouseState {
    Idle,
    Hovered,
    Clicked,
}

/// The interaction state a dynamic style reacts to.
#[derive(Clone, Copy, PartialEq, Eq, Structural, Debug)]
pub struct StyleState {
    pub focused: bool,
    pub active: bool,
    pub mouse_state: MouseState,
}

impl StyleState {
    /// The resting state.
    pub fn new() -> (r: StyleState)
        ensures
            !r.focused && !r.active && r.mouse_state == MouseState::Idle,
    {
        StyleState { focused: false, active: false, mouse_state: MouseState::Idle }
    }
}

/// A sheet for every interaction variant, with idle as the fallback for
/// every unset one.
#[derive(Clone, Copy, PartialEq, Eq, Structural, Debug)]
pub struct StyleAtlas {
    pub idle: Style,
    pub focused: Option<Style>,
    pub hovered: Option<Style>,
    pub hovered_focused: Option<Style>,
    pub pressed: Option<Style>,
    pub active: Option<Style>,
    pub max_padding: i64,
}

/// The sheet an atlas selects for an interaction state: a set pressed
/// sheet wins while clicked; hovering prefers the hovered-focused sheet,
/// then hovered; otherwise active, then focused, then idle.
pub open spec fn spec_sheet(atlas: StyleAtlas, state: StyleState) -> Sheet {
    if state.mouse_state == MouseState::Clicked && atlas.pressed is Some {
        Sheet::Pressed
    } else if state.mouse_state != MouseState::Idle {
        if state.focused && atlas.hovered_focused is Some {
            Sheet::HoveredFocused
        } else if atlas.hovered is Some {
            Sheet::Hovered
        } else {
            Sheet::Idle
        }
    } else if state.active && atlas.active is Some {
        Sheet::Active
    } else if !state.active && state.focused && atlas.focused is Some {
        Sheet::Focused
    } else {
        Sheet::Idle
    }
}

impl StyleAtlas {
    /// Every set sheet within range, and the cached padding covering the
    /// idle sheet.
    pub open spec fn wf(self) -> bool {
        &&& self.idle.wf()
        &&& match self.focused {
            Some(s) => s.wf(),
            None => true,
        }
        &&& match self.hovered {
            Some(s) => s.wf(),
            None => true,
        }
        &&& match self.hovered_focused {
            Some(s) => s.wf(),
            None => true,
        }
        &&& match self.pressed {
            Some(s) => s.wf(),
            None => true,
        }
        &&& match self.active {
            Some(s) => s.wf(),
            None => true,
        }
        &&& 0 <= self.max_padding <= COORD_LIMIT
    }

    /// An atlas with only the idle sheet set.
    pub fn new(idle: Style) -> (r: StyleAtlas)
        requires
            idle.wf(),
        ensures
            r.idle == idle,
            r.focused is None && r.hovered is None && r.hovered_focused is None,
            r.pressed is None && r.active is None,
            r.max_padding == idle.padding + idle.border + idle.margin,
            r.wf(),
    {
        let padding = idle.full_padding();
        StyleAtlas {
            idle,
            focused: None,
            hovered: None,
            hovered_focused: None,
            pressed: None,
            active: None,
            max_padding: padding,
        }
    }

    /// Which sheet an interaction state selects.
    pub fn sheet(&self, state: StyleState) -> (r: Sheet)
        ensures
            r == spec_sheet(*self, state),
    {
        if matches!(state.mouse_state, MouseState::Clicked) && self.pressed.is_some() {
            return Sheet::Pressed;
        }
        if !matches!(state.mouse_state, MouseState::Idle) {
            if state.focused && self.hovered_focused.is_some() {
                return Sheet::HoveredFocused;
            } else if self.hovered.is_some() {
                return Sheet::Hovered;
            }
        } else if state.active {
            if self.active.is_some() {
                return Sheet::Active;
            }
        } else if state.focused {
            if self.focused.is_some() {
                return Sheet::Focused;
            }
        }
        Sheet::Idle
    }

    /// The style behind a sheet name, idle where the sheet is unset.
    pub open spec fn spec_get(self, sheet: Sheet) -> Style {
        match sheet {
            Sheet::Idle => self.idle,
            Sheet::Focused => match self.focused {
                Some(s) => s,
                None => self.idle,
            },
            Sheet::Hovered => match self.hovered {
                Some(s) => s,
                None => self.idle,
            },
            Sheet::HoveredFocused => match self.hovered_focused {
                Some(s) => s,
                None => self.idle,
            },
            Sheet::Pressed => match self.pressed {
                Some(s) => s,
                None => self.idle,
            },
            Sheet::Active => match self.active {
                Some(s) => s,
                None => self.idle,
            },
        }
    }

    /// Looks a sheet up, falling back to idle.
    pub fn get(&self, sheet: Sheet) -> (r: Style)
        ensures
            r == self.spec_get(sheet),
    {
        match sheet {
            Sheet::Idle => self.idle,
            Sheet::Focused => match self.focused {
                Some(s) => s,
                None => self.idle,
            },
            Sheet::Hovered => match self.hovered {
                Some(s) => s,
                None => self.idle,
            },
            Sheet::HoveredFocused => match self.hovered_focused {
                Some(s) => s,
                None => self.idle,
            },
            Sheet::Pressed => match self.pressed {
                Some(s) => s,
                None => self.idle,
            },
            Sheet::Active => match self.active {
                Some(s) => s,
                None => self.idle,
            },
        }
    }
}

/// The interaction state after one pointer event: entering hovers an
/// idle pointer, a press clicks, a release falls back to hovering, and
/// leaving resets.
pub open spec fn spec_style_step(state: StyleState, event: Event) -> StyleState {
    match event {
        Event::MouseEnter(_) => if state.mouse_state == MouseState::Idle {
            StyleState { mouse_state: MouseState::Hovered, ..state }
        } else {
            state
        },
        Event::MouseDown(_) => StyleState { mouse_state: MouseState::Clicked, ..state },
        Event::MouseUp(_) => if state.mouse_state == MouseState::Clicked {
            StyleState { mouse_state: MouseState::Hovered, ..state }
        } else {
            state
        },
        Event::MouseExit => StyleState { mouse_state: MouseState::Idle, ..state },
        _ => state,
    }
}

/// A wrapper that selects a sheet by interaction state. With stable
/// padding it always claims the cached maximum padding, so sheet swaps
/// never move the content; otherwise the current sheet's padding counts
/// and a swap that changes it makes the wrapping widget report a bounds
/// change.
pub struct DynamicStyle {
    pub atlas: StyleAtlas,
    pub current: Sheet,
    pub stable_padding: bool,
    pub state: StyleState,
}

impl DynamicStyle {
    /// A dynamic style at rest on the idle sheet.
    pub fn new(atlas: StyleAtlas, stable_padding: bool) -> (r: DynamicStyle)
        requires
            atlas.wf(),
        ensures
            r.atlas == atlas,
            r.current == Sheet::Idle,
            r.stable_padding == stable_padding,
            r.state == (StyleState { focused: false, active: false, mouse_state: MouseState::Idle }),
            r.inv(),
    {
        DynamicStyle { atlas, current: Sheet::Idle, stable_padding, state: StyleState::new() }
    }
}

impl Wrapper for DynamicStyle {
    open spec fn inv(&self) -> bool {
        self.atlas.wf()
    }

    open spec fn spec_handle(&self, event: Event, post: Self, r: WrapperResponse) -> bool {
        &&& post.atlas == self.atlas
        &&& post.stable_padding == self.stable_padding
        &&& {
            let new_state = spec_style_step(self.state, event);
            let new_sheet = spec_sheet(self.atlas, new_state);
            if new_state != self.state && new_sheet != spec_sheet(self.atlas, self.state) {
                &&& post.state == new_state
                &&& post.current == new_sheet
                &&& r == WrapperResponse::Changed
            } else {
                &&& post.state == self.state
                &&& post.current == self.current
                &&& r == WrapperResponse::Unchanged
            }
        }
    }

    open spec fn spec_lt(&self) -> Size {
        if self.stable_padding {
            Size { width: self.atlas.max_padding, height: self.atlas.max_padding }
        } else {
            let s = self.atlas.spec_get(self.current);
            let p = (s.padding + s.border + s.margin) as i64;
            Size { width: p, height: p }
        }
    }

    open spec fn spec_rb(&self) -> Size {
        self.spec_lt()
    }

    fn draw(&self, painter: &mut Painter, size: Size, dirty_rect: Rect)
        ensures
            final(painter).cmds@ == spec_style_cmds(
                self.atlas.spec_get(self.current),
                size,
                old(painter).offset,
                old(painter).cmds@,
            ),
    {
        let style = self.atlas.get(self.current);
        style.draw(painter, size)
    }

    fn handle_event(&mut self, event: &Event) -> (r: WrapperResponse) {
        let mut new_state = self.state;
        match event {
            Event::MouseEnter(_) => {
                if matches!(new_state.mouse_state, MouseState::Idle) {
                    new_state.mouse_state = MouseState::Hovered;
                }
            },
            Event::MouseDown(_) => {
                new_state.mouse_state = MouseState::Clicked;
            },
            Event::MouseUp(_) => {
                if matches!(new_state.mouse_state, MouseState::Clicked) {
                    new_state.mouse_state = MouseState::Hovered;
                }
            },
            Event::MouseExit => {
                new_state.mouse_state = MouseState::Idle;
            },
            _ => {},
        }
        if new_state != self.state {
            let new_sheet = self.atlas.sheet(new_state);
            let old_sheet = self.atlas.sheet(self.state);
            if new_sheet != old_sheet {
                self.state = new_state;
                self.current = new_sheet;
                return WrapperResponse::Changed;
            }
        }
        WrapperResponse::Unchanged
    }

    fn get_left_top_padding(&self) -> (r: Size) {
        let padding = if self.stable_padding {
            self.atlas.max_padding
        } else {
            let style = self.atlas.get(self.current);
            style.full_padding()
        };
        Size::new(padding, padding)
    }

    fn get_right_bottom_padding(&self) -> (r: Size) {
        self.get_left_top_padding()
    }
}

/// A wrapper painting one fixed sheet.
pub struct StaticStyle(pub Style);

impl Wrapper for StaticStyle {
    open spec fn inv(&self) -> bool {
        self.0.wf()
    }

    open spec fn spec_handle(&self, event: Event, post: Self, r: WrapperResponse) -> bool {
        post == *self && r == WrapperResponse::Unchanged
    }

    open spec fn spec_lt(&self) -> Size {
        let p = (self.0.padding + self.0.border + self.0.margin) as i64;
        Size { width: p, height: p }
    }

    open spec fn spec_rb(&self) -> Size {
        self.spec_lt()
    }

    fn draw(&self, painter: &mut Painter, size: Size, dirty_rect: Rect)
        ensures
            final(painter).cmds@ == spec_style_cmds(
                self.0,
                size,
                old(painter).offset,
                old(painter).cmds@,
            ),
    {
        self.0.draw(painter, size)
    }

    fn handle_event(&mut self, event: &Event) -> (r: WrapperResponse) {
        WrapperResponse::Unchanged
    }

    fn get_left_top_padding(&self) -> (r: Size) {
        let p = self.0.full_padding();
        Size::new(p, p)
    }

    fn get_right_bottom_padding(&self) -> (r: Size) {
        let p = self.0.full_padding();
        Size::new(p, p)
    }
}

/// The atlas `default_style` builds: only an invisible idle sheet.
pub open spec fn spec_default_style() -> StyleAtlas {
    StyleAtlas {
        idle: Style {
            margin: 0,
            padding: 0,
            border: 0,
            border_fill: Fill::Solid(Color { rgba: 0xFF }),
            background: None,
            corners: 0,
        },
        focused: None,
        hovered: None,
        hovered_focused: None,
        pressed: None,
        active: None,
        max_padding: 0,
    }
}

/// The atlas `button_style` builds: a bordered rounded grey box whose
/// background lightens while hovered and drops while pressed.
pub open spec fn spec_button_style() -> StyleAtlas {
    let idle = Style {
        margin: 0,
        padding: 4,
        border: 1,
        border_fill: Fill::Solid(Color { rgba: 0x646464FF }),
        background: Some(Background { color: Fill::Solid(Color { rgba: 0x505050FF }), corner_radius: 0 }),
        corners: 6,
    };
    StyleAtlas {
        idle,
        focused: None,
        hovered: Some(Style {
            background: Some(Background { color: Fill::Solid(Color { rgba: 0x646464FF }), corner_radius: 0 }),
            ..idle
        }),
        hovered_focused: None,
        pressed: Some(Style {
            border_fill: Fill::Solid(Color { rgba: 0xC8C8C8FF }),
            background: None,
            ..idle
        }),
        active: None,
        max_padding: 5,
    }
}

/// The atlas `textfield_style` builds: a dark box that strengthens its
/// border while focused and drops its background while pressed.
pub open spec fn spec_textfield_style() -> StyleAtlas {
    let idle = Style {
        margin: 0,
        padding: 4,
        border: 1,
        border_fill: Fill::Solid(Color { rgba: 0x505050FF }),
        background: Some(Background { color: Fill::Solid(Color { rgba: 0x282828FF }), corner_radius: 0 }),
        corners: 6,
    };
    StyleAtlas {
        idle,
        focused: Some(Style {
            border: 2,
            border_fill: Fill::Solid(Color { rgba: 0x465064FF }),
            ..idle
        }),
        hovered: None,
        hovered_focused: None,
        pressed: Some(Style {
            border: 2,
            border_fill: Fill::Solid(Color { rgba: 0xC8C8C8FF }),
            background: None,
            ..idle
        }),
        active: None,
        max_padding: 5,
    }
}

/// The fallback style: invisible, no spacing.
pub fn default_style() -> (r: StyleAtlas)
    ensures
        r == spec_default_style(),
        r.wf(),
{
    StyleAtlas::new(
        Style {
            margin: 0,
            padding: 0,
            border: 0,
            border_fill: Fill::Solid(Color { rgba: 0xFF }),
            background: None,
            corners: 0,
        },
    )
}

/// The stock button style: a bordered, rounded box that lightens while
/// hovered and drops its background while pressed.
pub fn button_style() -> (r: StyleAtlas)
    ensures
        r == spec_button_style(),
        r.wf(),
{
    let mut style = Style {
        margin: 0,
        padding: 4,
        border: 1,
        border_fill: Fill::Solid(Color::grey8(100)),
        background: Some(Background::from_color(Color::grey8(80))),
        corners: 6,
    };
    let mut atlas = StyleAtlas::new(style);
    style.background = Some(Background::from_color(Color::grey8(100)));
    atlas.hovered = Some(style);
    style.background = None;
    style.border_fill = Fill::Solid(Color::grey8(200));
    atlas.pressed = Some(style);
    atlas
}

/// The stock text-field style: a dark box that strengthens its border
/// while focused.
pub fn textfield_style() -> (r: StyleAtlas)
    ensures
        r == spec_textfield_style(),
        r.wf(),
{
    let mut style = Style {
        margin: 0,
        padding: 4,
        border: 1,
        border_fill: Fill::Solid(Color::grey8(80)),
        background: Some(Background::from_color(Color::grey8(40))),
        corners: 6,
    };
    let mut atlas = StyleAtlas::new(style);
    style.border = 2;
    style.border_fill = Fill::Solid(Color::rgb8(70, 80, 100));
    atlas.focused = Some(style);
    style.background = None;
    style.border_fill = Fill::Solid(Color::grey8(200));
    atlas.pressed = Some(style);
    atlas
}

} // verus!
// The named stock styles.

verus! {

/// Looks a stock style up by name: "button" and "textfield" have their
/// own atlases, anything else gets the invisible fallback.
pub fn get_style(name: &str) -> (r: StyleAtlas)
    ensures
        r == if name@ == "button"@ {
            spec_button_style()
        } else if name@ == "textfield"@ {
            spec_textfield_style()
        } else {
            spec_default_style()
        },
        r.wf(),
{
    let button: String = "button".to_owned();
    let textfield: String = "textfield".to_owned();
    let owned: String = name.to_owned();
    if owned == button {
        button_style()
    } else if owned == textfield {
        textfield_style()
    } else {
        default_style()
    }
}

} // verus!
