//! The anti-automation token that accompanies purchases of high-demand items.
use vstd::prelude::*;

use crate::clock::{epoch_millis, reading_seconds, seconds_from_reading};

verus! {

/// Name for the standard, padded base64 text of a byte sequence.
pub uninterp spec fn base64_of(b: Seq<u8>) -> Seq<char>;

/// Relies on `base64::engine::general_purpose::STANDARD.encode`: the padded
/// standard encoding, four characters for every started group of three bytes.
#[verifier::external_body]
fn base64_standard(b: &Vec<u8>) -> (r: String)
    requires
        b@.len() <= 0x1000_0000,
    ensures
        r@ == base64_of(b@),
        r@.len() == 4 * ((b@.len() + 2) / 3),
{
    base64::Engine::encode(&base64::engine::general_purpose::STANDARD, b)
}

/// Relies on `rand::Rng::gen_range` over `rand::thread_rng()`: a value of the
/// half-open range, which must not be empty.
#[verifier::external_body]
fn random_in(lo: u32, hi: u32) -> (r: u32)
    requires
        lo < hi,
    ensures
        lo <= r < hi,
{
    rand::Rng::gen_range(&mut rand::thread_rng(), lo..hi)
}

/// Length of the packed counter buffer.
pub const TOKEN_BUFFER_LEN: usize = 16;

/// Synthetic client telemetry, packed into a token on every request.
pub struct CTokenGenerator {
    /// The reference instant, in seconds since the epoch.
    pub ticket_collection_t: u64,
    /// Added to the clock when measuring the time since the reference, in seconds.
    pub time_offset: i64,
    /// The simulated time spent on the page, added to the timer.
    pub stay_time: u64,
    pub touch_event: u32,
    pub visibility_change: u32,
    pub page_unload: u32,
    pub timer: u32,
    pub time_difference: u32,
    pub scroll_x: u32,
    pub scroll_y: u32,
    pub inner_width: u32,
    pub inner_height: u32,
    pub outer_width: u32,
    pub outer_height: u32,
    pub screen_x: u32,
    pub screen_y: u32,
    pub screen_width: u32,
    pub screen_height: u32,
    pub screen_avail_width: u32,
}

/// A one-byte field saturates at 255.
pub open spec fn sat8(v: u32) -> u8 {
    if v > 255 { 255 } else { v as u8 }
}

/// A two-byte field saturates at 65535.
pub open spec fn sat16(v: u32) -> u16 {
    if v > 65535 { 65535 } else { v as u16 }
}

/// An integer clamped into the range of `u32`.
pub open spec fn clamp_u32(v: int) -> u32 {
    if v < 0 { 0 } else if v > u32::MAX { u32::MAX } else { v as u32 }
}

/// Interleaves a zero byte after every byte.
pub open spec fn zero_interleaved(b: Seq<u8>) -> Seq<u8> {
    Seq::new(2 * b.len(), |i: int| if i % 2 == 0 { b[i / 2] } else { 0u8 })
}

/// Clamps into the range of `u32`.
fn clamp_to_u32(v: i128) -> (r: u32)
    ensures
        r == clamp_u32(v as int),
{
    if v < 0 {
        0
    } else if v > u32::MAX as i128 {
        u32::MAX
    } else {
        v as u32
    }
}

/// Puts a zero byte after every byte.
pub fn interleave_zeros(bytes: &Vec<u8>) -> (r: Vec<u8>)
    requires
        bytes@.len() <= 0x0800_0000,
    ensures
        r@ == zero_interleaved(bytes@),
        r@.len() == 2 * bytes@.len(),
{
    let mut out: Vec<u8> = Vec::new();
    let mut i: usize = 0;
    while i < bytes.len()
        invariant
            i <= bytes@.len() <= 0x0800_0000,
            out@ =~= zero_interleaved(bytes@.subrange(0, i as int)),
        decreases bytes@.len() - i,
    {
        out.push(bytes[i]);
        out.push(0);
        i += 1;
        assert(out@ =~= zero_interleaved(bytes@.subrange(0, i as int)));
    }
    assert(bytes@.subrange(0, i as int) =~= bytes@);
    out
}

impl CTokenGenerator {
    /// The field that starts at buffer offset `idx`, with its width in bytes.
    pub open spec fn slot(self, idx: int) -> Option<(u32, usize)> {
        if idx == 0 { Some((self.touch_event, 1)) }
        else if idx == 1 { Some((self.scroll_x, 1)) }
        else if idx == 2 { Some((self.visibility_change, 1)) }
        else if idx == 3 { Some((self.scroll_y, 1)) }
        else if idx == 4 { Some((self.inner_width, 1)) }
        else if idx == 5 { Some((self.page_unload, 1)) }
        else if idx == 6 { Some((self.inner_height, 1)) }
        else if idx == 7 { Some((self.outer_width, 1)) }
        else if idx == 8 { Some((self.timer, 2)) }
        else if idx == 10 { Some((self.time_difference, 2)) }
        else if idx == 12 { Some((self.outer_height, 1)) }
        else if idx == 13 { Some((self.screen_x, 1)) }
        else if idx == 14 { Some((self.screen_y, 1)) }
        else if idx == 15 { Some((self.screen_width, 1)) }
        else { None }
    }

    /// The byte for a position that no field claims: a bit of the screen
    /// height picks between the vertical scroll and the available width.
    pub open spec fn fallback_byte(self) -> u8 {
        let v = if (4u32 & self.screen_height) != 0 { self.scroll_y } else { self.screen_avail_width };
        (v & 0xffu32) as u8
    }

    /// The byte at buffer position `i`.
    pub open spec fn layout_byte(self, i: int) -> u8 {
        match self.slot(i) {
            Some((v, w)) => if w == 1 { sat8(v) } else { (sat16(v) / 256) as u8 },
            None => match self.slot(i - 1) {
                Some((v, w)) if w == 2 => (sat16(v) % 256) as u8,
                _ => self.fallback_byte(),
            },
        }
    }

    /// The packed counter buffer.
    pub open spec fn token_bytes(self) -> Seq<u8> {
        Seq::new(TOKEN_BUFFER_LEN as nat, |i: int| self.layout_byte(i))
    }

    /// The counters after one refresh, given the values drawn for it.
    pub open spec fn refreshed(
        self,
        is_create_v2: bool,
        now_secs: u64,
        screen_height: u32,
        screen_avail_width: u32,
        touch_event: u32,
    ) -> CTokenGenerator {
        let base = CTokenGenerator {
            visibility_change: 2,
            inner_width: 255,
            inner_height: 255,
            outer_width: 255,
            outer_height: 255,
            screen_width: 255,
            screen_height,
            screen_avail_width,
            ..self
        };
        if is_create_v2 {
            let diff = clamp_u32(now_secs + self.time_offset - self.ticket_collection_t);
            CTokenGenerator {
                touch_event: 255,
                time_difference: diff,
                timer: clamp_u32(diff + self.stay_time),
                page_unload: 25,
                ..base
            }
        } else {
            CTokenGenerator {
                touch_event,
                time_difference: 0,
                timer: clamp_u32(self.stay_time as int),
                ..base
            }
        }
    }

    /// The field that starts at buffer offset `idx`, with its width in bytes.
    fn slot_at(&self, idx: usize) -> (r: Option<(u32, usize)>)
        ensures
            r == self.slot(idx as int),
    {
        match idx {
            0 => Some((self.touch_event, 1)),
            1 => Some((self.scroll_x, 1)),
            2 => Some((self.visibility_change, 1)),
            3 => Some((self.scroll_y, 1)),
            4 => Some((self.inner_width, 1)),
            5 => Some((self.page_unload, 1)),
            6 => Some((self.inner_height, 1)),
            7 => Some((self.outer_width, 1)),
            8 => Some((self.timer, 2)),
            10 => Some((self.time_difference, 2)),
            12 => Some((self.outer_height, 1)),
            13 => Some((self.screen_x, 1)),
            14 => Some((self.screen_y, 1)),
            15 => Some((self.screen_width, 1)),
            _ => None,
        }
    }

    /// Packs the counters into the fixed-layout buffer: each field at its
    /// offset, saturated to its width, two-byte fields big-endian, and the
    /// fallback byte wherever no field starts.
    pub fn token_buffer(&self) -> (r: Vec<u8>)
        ensures
            r@ == self.token_bytes(),
    {
        let mut buffer: Vec<u8> = Vec::new();
        while buffer.len() < TOKEN_BUFFER_LEN
            invariant
                buffer.len() <= TOKEN_BUFFER_LEN,
                !(self.slot(buffer.len() - 1) matches Some((_, w)) && w == 2),
                forall|i: int| 0 <= i < buffer.len() ==> buffer@[i] == #[trigger] self.layout_byte(i),
            decreases TOKEN_BUFFER_LEN - buffer.len(),
        {
            let cur = buffer.len();
            match self.slot_at(cur) {
                Some((v, w)) => {
                    if w == 1 {
                        let b: u8 = if v > 255 { 255 } else { v as u8 };
                        buffer.push(b);
                    } else {
                        let wide: u32 = if v > 65535 { 65535 } else { v };
                        buffer.push((wide / 256) as u8);
                        assert(self.slot(cur + 1) is None);
                        buffer.push((wide % 256) as u8);
                    }
                },
                None => {
                    let v = if (4u32 & self.screen_height) != 0 {
                        self.scroll_y
                    } else {
                        self.screen_avail_width
                    };
                    buffer.push((v & 0xffu32) as u8);
                },
            }
        }
        assert(buffer@ =~= self.token_bytes());
        buffer
    }

    /// Encodes the counters: the packed buffer, a zero byte after each of
    /// its bytes, then standard base64.
    pub fn encode(&self) -> (r: String)
        ensures
            r@ == base64_of(zero_interleaved(self.token_bytes())),
    {
        let buffer = self.token_buffer();
        let wide = interleave_zeros(&buffer);
        base64_standard(&wide)
    }

    /// Refreshes the counters from the values drawn for this token: a
    /// submission token (`is_create_v2`) measures the time since the reference
    /// instant and marks the page unload; a discovery token takes the drawn
    /// touch count and zeroes the time difference.
    pub fn refresh_fields(
        &mut self,
        is_create_v2: bool,
        now_secs: u64,
        screen_height: u32,
        screen_avail_width: u32,
        touch_event: u32,
    )
        ensures
            *final(self) == old(self).refreshed(
                is_create_v2,
                now_secs,
                screen_height,
                screen_avail_width,
                touch_event,
            ),
    {
        self.visibility_change = 2;
        self.inner_width = 255;
        self.inner_height = 255;
        self.outer_width = 255;
        self.outer_height = 255;
        self.screen_width = 255;
        self.screen_height = screen_height;
        self.screen_avail_width = screen_avail_width;
        if is_create_v2 {
            let diff = now_secs as i128 + self.time_offset as i128 - self.ticket_collection_t as i128;
            let td = clamp_to_u32(diff);
            self.touch_event = 255;
            self.time_difference = td;
            self.timer = clamp_to_u32(td as i128 + self.stay_time as i128);
            self.page_unload = 25;
        } else {
            self.touch_event = touch_event;
            self.time_difference = 0;
            self.timer = clamp_to_u32(self.stay_time as i128);
        }
    }

    /// Draws fresh screen dimensions (and, for a discovery token, a touch
    /// count), refreshes the counters and returns the encoded token.
    pub fn generate_ctoken(&mut self, is_create_v2: bool) -> (r: String)
        ensures
            exists|reading: Option<u128>, height: u32, avail: u32, touch: u32|
                1000 <= height < 3000 && 1 <= avail < 100
                && (!is_create_v2 ==> 3 <= touch < 10)
                && *final(self) == old(self).refreshed(
                    is_create_v2,
                    reading_seconds(reading),
                    height,
                    avail,
                    touch,
                ),
            r@ == base64_of(zero_interleaved(final(self).token_bytes())),
    {
        let height = random_in(1000, 3000);
        let avail = random_in(1, 100);
        let mut reading: Option<u128> = None;
        let mut touch: u32 = 0;
        if is_create_v2 {
            reading = epoch_millis();
        } else {
            touch = random_in(3, 10);
        }
        let now_secs = seconds_from_reading(reading);
        self.refresh_fields(is_create_v2, now_secs, height, avail, touch);
        self.encode()
    }

    /// A generator with the given reference instant (seconds), time offset and
    /// stay time, whose counters all start at zero.
    pub open spec fn seeded(ticket_collection_t: u64, time_offset: i64, stay_time: u64) -> Self {
        CTokenGenerator {
            ticket_collection_t,
            time_offset,
            stay_time,
            touch_event: 0,
            visibility_change: 0,
            page_unload: 0,
            timer: 0,
            time_difference: 0,
            scroll_x: 0,
            scroll_y: 0,
            inner_width: 0,
            inner_height: 0,
            outer_width: 0,
            outer_height: 0,
            screen_x: 0,
            screen_y: 0,
            screen_width: 0,
            screen_height: 0,
            screen_avail_width: 0,
        }
    }

    /// A generator whose counters all start at zero.
    pub fn new(ticket_collection_t: u64, time_offset: i64, stay_time: u64) -> (r: Self)
        ensures
            r == Self::seeded(ticket_collection_t, time_offset, stay_time),
    {
        CTokenGenerator {
            ticket_collection_t,
            time_offset,
            stay_time,
            touch_event: 0,
            visibility_change: 0,
            page_unload: 0,
            timer: 0,
            time_difference: 0,
            scroll_x: 0,
            scroll_y: 0,
            inner_width: 0,
            inner_height: 0,
            outer_width: 0,
            outer_height: 0,
            screen_x: 0,
            screen_y: 0,
            screen_width: 0,
            screen_height: 0,
            screen_avail_width: 0,
        }
    }
}

/// The counters that no refresh touches, the scroll and screen position,
/// are zero.
pub open spec fn position_at_origin(g: CTokenGenerator) -> bool {
    g.scroll_x == 0 && g.scroll_y == 0 && g.screen_x == 0 && g.screen_y == 0
}

/// A new generator starts at the origin, and every refresh keeps it there:
/// so does every generator built by `new` and changed only by refreshes.
pub proof fn lemma_position_stays_at_origin(
    g: CTokenGenerator,
    t: u64,
    offset: i64,
    stay: u64,
    is_create_v2: bool,
    now: u64,
    height: u32,
    avail: u32,
    touch: u32,
)
    ensures
        position_at_origin(CTokenGenerator::seeded(t, offset, stay)),
        position_at_origin(g) ==> position_at_origin(
            g.refreshed(is_create_v2, now, height, avail, touch),
        ),
{
}

/// The token layout is fixed whatever is drawn. For a generator at the
/// origin (any generator built by `new` and refreshed since), every field
/// lands at its offset: a submission token holds 255, 0, 2, 0, 255, 25, 255,
/// 255 at offsets 0 to 7 and 255, 0, 0, 255 at 12 to 15, with the timer and
/// time difference big-endian at 8 and 10; a discovery token holds the drawn
/// touch count at 0, the page-unload mark at 5, the stay time (saturated) as
/// its timer and a zero time difference. Two refreshes with the same flavor
/// but different draws differ only where a draw feeds a field: offset 0 for a
/// discovery token, offsets 8 to 11 for a submission token. The bytes handed
/// to base64 number 32, every odd-indexed one zero.
pub proof fn lemma_token_layout_fixed(
    g: CTokenGenerator,
    is_create_v2: bool,
    now1: u64,
    height1: u32,
    avail1: u32,
    touch1: u32,
    now2: u64,
    height2: u32,
    avail2: u32,
    touch2: u32,
)
    requires
        position_at_origin(g),
    ensures
        ({
            let x = g.refreshed(is_create_v2, now1, height1, avail1, touch1);
            let y = g.refreshed(is_create_v2, now2, height2, avail2, touch2);
            let b = x.token_bytes();
            &&& b.len() == 16
            &&& b[1] == 0 && b[2] == 2 && b[3] == 0 && b[4] == 255
            &&& b[6] == 255 && b[7] == 255
            &&& b[12] == 255 && b[13] == 0 && b[14] == 0 && b[15] == 255
            &&& b[8] * 256 + b[9] == sat16(x.timer)
            &&& b[10] * 256 + b[11] == sat16(x.time_difference)
            &&& is_create_v2 ==> b[0] == 255 && b[5] == 25
            &&& !is_create_v2 ==> b[0] == sat8(touch1) && b[5] == sat8(g.page_unload)
            &&& !is_create_v2 ==> b[8] * 256 + b[9] == if g.stay_time > 65535 { 65535 } else { g.stay_time }
            &&& !is_create_v2 ==> b[10] == 0 && b[11] == 0
            &&& forall|i: int|
                0 <= i < 16 && i != 0 && !(is_create_v2 && 8 <= i < 12)
                    ==> b[i] == y.token_bytes()[i]
            &&& zero_interleaved(b).len() == 32
            &&& forall|i: int| 0 <= i < 32 && i % 2 == 1 ==> zero_interleaved(b)[i] == 0
        }),
{
    let x = g.refreshed(is_create_v2, now1, height1, avail1, touch1);
    let t = sat16(x.timer);
    let d = sat16(x.time_difference);
    assert((t / 256) as u8 * 256 + (t % 256) as u8 == t);
    assert((d / 256) as u8 * 256 + (d % 256) as u8 == d);
}

} // verus!
