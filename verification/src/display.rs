//! The popup's own decisions: when to draw the next frame, how opacity fades a pixel, what
//! the tray menu entries do, the tray icon's bytes and the status text.
use vstd::prelude::*;

use crate::model::{mood_name, CreatureState, Mood};
use crate::text::{decimal, push_decimal};

verus! {

/// Frames per second while the mood stays the same.
pub const IDLE_FPS: u32 = 4;

/// Frames per second right after the mood changed.
pub const ACTIVE_FPS: u32 = 10;

/// The four opacities the tray menu offers.
#[derive(Clone, Copy, Debug, PartialEq, Eq, Structural)]
pub enum Opacity {
    Quarter,
    Half,
    ThreeQuarters,
    Full,
}

/// The opacity in quarters.
pub open spec fn quarters(o: Opacity) -> nat {
    match o {
        Opacity::Quarter => 1,
        Opacity::Half => 2,
        Opacity::ThreeQuarters => 3,
        Opacity::Full => 4,
    }
}

/// The alpha, red, green and blue channels of a `0xAARRGGBB` pixel.
pub open spec fn alpha(p: u32) -> nat {
    (p as nat / 0x1000000) % 256
}

pub open spec fn red(p: u32) -> nat {
    (p as nat / 0x10000) % 256
}

pub open spec fn green(p: u32) -> nat {
    (p as nat / 0x100) % 256
}

pub open spec fn blue(p: u32) -> nat {
    p as nat % 256
}

/// The pixel from its four channels.
pub open spec fn argb(a: nat, r: nat, g: nat, b: nat) -> nat {
    a * 0x1000000 + r * 0x10000 + g * 0x100 + b
}

/// The pixel drawn at opacity `o`: below full opacity every channel, alpha included, is
/// scaled by the opacity and rounded down.
pub open spec fn faded(p: u32, o: Opacity) -> u32 {
    if o == Opacity::Full {
        p
    } else {
        let k = quarters(o);
        argb(alpha(p) * k / 4, red(p) * k / 4, green(p) * k / 4, blue(p) * k / 4) as u32
    }
}

proof fn lemma_channels(p: u32)
    ensures
        (p >> 24u32) & 0xFF == alpha(p),
        (p >> 16u32) & 0xFF == red(p),
        (p >> 8u32) & 0xFF == green(p),
        p & 0xFF == blue(p),
{
    assert((p >> 24u32) & 0xFF == (p / 0x1000000) % 256) by (bit_vector);
    assert((p >> 16u32) & 0xFF == (p / 0x10000) % 256) by (bit_vector);
    assert((p >> 8u32) & 0xFF == (p / 0x100) % 256) by (bit_vector);
    assert(p & 0xFF == p % 256) by (bit_vector);
}

proof fn lemma_pack(a: u32, r: u32, g: u32, b: u32)
    requires
        a < 256,
        r < 256,
        g < 256,
        b < 256,
    ensures
        (a << 24u32) | (r << 16u32) | (g << 8u32) | b == argb(a as nat, r as nat, g as nat, b as nat),
{
    assert((a << 24u32) | (r << 16u32) | (g << 8u32) | b == a * 0x1000000 + r * 0x10000 + g
        * 0x100 + b) by (bit_vector)
        requires
            a < 256,
            r < 256,
            g < 256,
            b < 256,
    ;
}

/// The pixel as drawn at opacity `opacity`.
pub fn apply_opacity(pixel: u32, opacity: Opacity) -> (r: u32)
    ensures
        r == faded(pixel, opacity),
{
    if opacity == Opacity::Full {
        return pixel;
    }
    let k: u32 = match opacity {
        Opacity::Quarter => 1,
        Opacity::Half => 2,
        Opacity::ThreeQuarters => 3,
        Opacity::Full => 4,
    };
    proof {
        lemma_channels(pixel);
    }
    let a = ((pixel >> 24) & 0xFF) * k / 4;
    let r = ((pixel >> 16) & 0xFF) * k / 4;
    let g = ((pixel >> 8) & 0xFF) * k / 4;
    let b = (pixel & 0xFF) * k / 4;
    proof {
        lemma_pack(a, r, g, b);
    }
    (a << 24) | (r << 16) | (g << 8) | b
}

/// The bytes of the tray icon: each `0xAARRGGBB` pixel becomes red, green, blue, alpha.
pub open spec fn rgba_bytes(pixels: Seq<u32>) -> Seq<u8> {
    Seq::new(
        pixels.len() * 4,
        |i: int|
            {
                let p = pixels[i / 4];
                (if i % 4 == 0 {
                    red(p)
                } else if i % 4 == 1 {
                    green(p)
                } else if i % 4 == 2 {
                    blue(p)
                } else {
                    alpha(p)
                }) as u8
            },
    )
}

/// The pixels as red, green, blue, alpha bytes, pixel by pixel.
pub fn icon_rgba(pixels: &Vec<u32>) -> (bytes: Vec<u8>)
    requires
        pixels@.len() * 4 <= usize::MAX,
    ensures
        bytes@ == rgba_bytes(pixels@),
{
    let mut bytes: Vec<u8> = Vec::new();
    let mut i: usize = 0;
    while i < pixels.len()
        invariant
            i <= pixels@.len(),
            pixels@.len() * 4 <= usize::MAX,
            bytes@ == rgba_bytes(pixels@).take(4 * i),
        decreases pixels.len() - i,
    {
        let pixel = pixels[i];
        proof {
            lemma_channels(pixel);
        }
        let a = ((pixel >> 24) & 0xFF) as u8;
        let r = ((pixel >> 16) & 0xFF) as u8;
        let g = ((pixel >> 8) & 0xFF) as u8;
        let b = (pixel & 0xFF) as u8;
        bytes.push(r);
        bytes.push(g);
        bytes.push(b);
        bytes.push(a);
        i = i + 1;
        assert(bytes@ =~= rgba_bytes(pixels@).take(4 * i));
    }
    assert(rgba_bytes(pixels@).take(4 * pixels@.len() as int) =~= rgba_bytes(pixels@));
    bytes
}

/// The animation clock of the popup: the tick, the mood last drawn and when the last
/// frame was drawn (nanoseconds since the popup started).
#[derive(Clone, Copy, Debug)]
pub struct FrameClock {
    pub tick: u32,
    pub last_mood: Mood,
    pub last_frame: u64,
}

/// What to do after the event queue empties: whether to draw, and when to wake up next
/// (nanoseconds since the popup started).
#[derive(Clone, Copy, Debug)]
pub struct FrameDecision {
    pub redraw: bool,
    pub wake_at: u128,
}

/// The length of a frame: 100 ms right after a mood change, 250 ms otherwise.
pub open spec fn frame_nanos(mood_changed: bool) -> nat {
    if mood_changed {
        (1000u32 / ACTIVE_FPS) as nat * 1_000_000
    } else {
        (1000u32 / IDLE_FPS) as nat * 1_000_000
    }
}

/// The time from `earlier` to `later`, or zero when `later` comes first.
pub open spec fn since(later: u64, earlier: u64) -> nat {
    if later >= earlier {
        (later - earlier) as nat
    } else {
        0
    }
}

impl FrameClock {
    /// A clock at tick 0 for an idle creature, with the last frame at the start.
    pub fn new() -> (c: FrameClock)
        ensures
            c.tick == 0,
            c.last_mood == Mood::Idle,
            c.last_frame == 0,
    {
        FrameClock { tick: 0, last_mood: Mood::Idle, last_frame: 0 }
    }

    /// Decides the next frame, given the mood now shown, whether the creature's state changed
    /// since the last look, and the time `now`: a frame is due when the state changed or a
    /// whole frame length has passed; drawing it advances the tick (wrapping) and restarts the
    /// frame; the popup wakes one frame length after the last frame.
    pub fn on_wait(&mut self, current_mood: Mood, state_changed: bool, now: u64) -> (d:
        FrameDecision)
        ensures
            final(self).last_mood == current_mood,
            ({
                let len = frame_nanos(current_mood != old(self).last_mood);
                let due = state_changed || since(now, old(self).last_frame) >= len;
                &&& d.redraw == due
                &&& final(self).last_frame == if due {
                    now
                } else {
                    old(self).last_frame
                }
                &&& final(self).tick == if due {
                    if old(self).tick == u32::MAX {
                        0
                    } else {
                        (old(self).tick + 1) as u32
                    }
                } else {
                    old(self).tick
                }
                &&& d.wake_at == final(self).last_frame + len
            }),
    {
        let fps = if current_mood != self.last_mood {
            self.last_mood = current_mood;
            ACTIVE_FPS
        } else {
            IDLE_FPS
        };
        let frame: u64 = (1000 / fps as u64) * 1_000_000;
        let elapsed: u64 = if now >= self.last_frame {
            now - self.last_frame
        } else {
            0
        };
        let due = state_changed || elapsed >= frame;
        if due {
            self.last_frame = now;
            self.tick = self.tick.wrapping_add(1);
        }
        FrameDecision { redraw: due, wake_at: self.last_frame as u128 + frame as u128 }
    }
}

/// The entries of the tray menu.
#[derive(Clone, Copy, Debug, PartialEq, Eq, Structural)]
pub enum TrayCommand {
    Quit,
    ShowStatus,
    ToggleMovable,
    SetOpacity(Opacity),
}

/// The popup's settings that the tray menu changes.
#[derive(Clone, Copy, Debug)]
pub struct ViewSettings {
    pub movable: bool,
    pub opacity: Opacity,
}

/// What the popup must do after a tray menu entry was chosen.
#[derive(Clone, Copy, Debug, PartialEq, Eq, Structural)]
pub enum TrayEffect {
    Exit,
    ShowStatus,
    Nothing,
}

impl ViewSettings {
    /// Fixed in place, fully opaque.
    pub fn new() -> (s: ViewSettings)
        ensures
            !s.movable,
            s.opacity == Opacity::Full,
    {
        ViewSettings { movable: false, opacity: Opacity::Full }
    }

    /// Applies a tray menu entry: quitting and the status box are left to the caller,
    /// `ToggleMovable` flips whether the window can be dragged, and an opacity entry sets
    /// the opacity.
    pub fn apply(&mut self, cmd: TrayCommand) -> (e: TrayEffect)
        ensures
            e == match cmd {
                TrayCommand::Quit => TrayEffect::Exit,
                TrayCommand::ShowStatus => TrayEffect::ShowStatus,
                _ => TrayEffect::Nothing,
            },
            final(self).movable == if cmd == TrayCommand::ToggleMovable {
                !old(self).movable
            } else {
                old(self).movable
            },
            final(self).opacity == match cmd {
                TrayCommand::SetOpacity(o) => o,
                _ => old(self).opacity,
            },
    {
        match cmd {
            TrayCommand::Quit => TrayEffect::Exit,
            TrayCommand::ShowStatus => TrayEffect::ShowStatus,
            TrayCommand::ToggleMovable => {
                self.movable = !self.movable;
                TrayEffect::Nothing
            },
            TrayCommand::SetOpacity(o) => {
                self.opacity = o;
                TrayEffect::Nothing
            },
        }
    }
}

/// The text of the status box: mood, level, experience, health out of 100 and streak,
/// one per line, ending in a NUL for the message box.
pub open spec fn status_message(s: CreatureState) -> Seq<char> {
    "Mood:\t"@ + mood_name(s.mood) + "\nLevel:\t"@ + decimal(s.level as nat) + "\nXP:\t"@
        + decimal(s.xp as nat) + "\nHP:\t"@ + decimal(s.hp as nat) + "/100\nStreak:\t"@
        + decimal(s.streak as nat) + "\0"@
}

/// The text of the status box for `state`.
pub fn status_text(state: &CreatureState) -> (t: String)
    ensures
        t@ == status_message(*state),
{
    let mut t = String::from_str("Mood:\t");
    t.append(state.mood.name());
    t.append("\nLevel:\t");
    push_decimal(&mut t, state.level as u64);
    t.append("\nXP:\t");
    push_decimal(&mut t, state.xp as u64);
    t.append("\nHP:\t");
    push_decimal(&mut t, state.hp as u64);
    t.append("/100\nStreak:\t");
    push_decimal(&mut t, state.streak as u64);
    t.append("\0");
    t
}

/// Right after a mood change a frame lasts 100 ms, otherwise 250 ms.
pub proof fn lemma_frame_lengths()
    ensures
        frame_nanos(true) == 100_000_000,
        frame_nanos(false) == 250_000_000,
{
}

} // verus!
