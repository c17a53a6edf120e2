//! Tools common to every lamp: the signals, the commands they become, the
//! lamp interface and the scaling between ranges.

use crate::colour::Hsv;
use vstd::prelude::*;
use vstd::string::*;

verus! {

/// Possible signals to control a lamp.
#[derive(Debug)]
pub enum Sig {
    /// Turn the lamp on or off.
    On(bool),
    /// Set the brightness of the lamp. Values from 0 to 100 are accepted.
    Brightness(isize),
    /// Set the colour to the (hue, saturation, brightness) tuple. The
    /// maximum values are (360, 100, 100).
    Colour(isize, isize, isize),
    /// Set the colour by an `Hsv` value, which interpolates well between
    /// colours.
    Palette(Hsv),
    /// Set the colour temperature, in percent: the higher the percent, the
    /// lower the number that the lamp is sent.
    Temp(isize),
    /// Select a scene by its name.
    Scene(String),
}

impl Clone for Sig {
    fn clone(&self) -> (copy: Sig)
        ensures
            copy == *self,
    {
        match self {
            Sig::On(state) => Sig::On(*state),
            Sig::Brightness(val) => Sig::Brightness(*val),
            Sig::Colour(hue, sat, bri) => Sig::Colour(*hue, *sat, *bri),
            Sig::Palette(colour) => Sig::Palette(*colour),
            Sig::Temp(temp) => Sig::Temp(*temp),
            Sig::Scene(name) => Sig::Scene(name.clone()),
        }
    }
}

/// Possible questions to a lamp.
#[derive(Clone, Copy, Debug)]
pub enum GetSig {
    /// The list of the scenes that the lamp knows.
    Scene,
}

/// What a signal becomes for one lamp: the end of the address to send to,
/// and the JSON text to send.
#[derive(Debug)]
pub struct ApiCommand {
    pub addr: String,
    pub json: String,
}

/// The view of an `ApiCommand`: its two texts.
pub struct CommandView {
    pub addr: Seq<char>,
    pub json: Seq<char>,
}

impl View for ApiCommand {
    type V = CommandView;

    open spec fn view(&self) -> CommandView {
        CommandView { addr: self.addr@, json: self.json@ }
    }
}

/// A PUT request, ready to be sent.
#[derive(Debug)]
pub struct PutRequest {
    /// The full address.
    pub url: String,
    /// The value of the `Content-Type` header.
    pub content_type: String,
    /// The body.
    pub body: String,
}

/// The view of a `PutRequest`: its three texts.
pub struct RequestView {
    pub url: Seq<char>,
    pub content_type: Seq<char>,
    pub body: Seq<char>,
}

impl View for PutRequest {
    type V = RequestView;

    open spec fn view(&self) -> RequestView {
        RequestView { url: self.url@, content_type: self.content_type@, body: self.body@ }
    }
}

/// The view of a command that may be missing.
pub open spec fn command_view(cmd: Option<ApiCommand>) -> Option<CommandView> {
    match cmd {
        Some(c) => Some(c@),
        None => None,
    }
}

/// The view of a request that may be missing.
pub open spec fn request_view(request: Option<PutRequest>) -> Option<RequestView> {
    match request {
        Some(r) => Some(r@),
        None => None,
    }
}

/// The address `base/ext`.
pub open spec fn joined(base: Seq<char>, ext: Seq<char>) -> Seq<char> {
    base + seq!['/'] + ext
}

/// The request that sends a command to the lamp at `base`: none where there
/// is no command, else one PUT of the command's JSON text to the command's
/// address below the lamp's.
pub open spec fn request_for(base: Seq<char>, cmd: Option<CommandView>) -> Option<RequestView> {
    match cmd {
        Some(cmd) => Some(
            RequestView {
                url: joined(base, cmd.addr),
                content_type: "application/json"@,
                body: cmd.json,
            },
        ),
        None => None,
    }
}

/// A lamp: one device that takes signals.
///
/// Each vendor says where its lamp lives and what each kind of signal
/// becomes. A kind that the vendor cannot express, or a value out of its
/// range, becomes no command, and then nothing is sent.
pub trait Lamp {
    /// The base address of the lamp.
    spec fn addr_spec(&self) -> Seq<char>;

    /// The command that turns the lamp on or off.
    spec fn on_spec(&self, state: bool) -> Option<CommandView>;

    /// The command that sets the brightness.
    spec fn brightness_spec(&self, val: isize) -> Option<CommandView>;

    /// The command that sets the colour.
    spec fn colour_spec(&self, hue: isize, sat: isize, bri: isize) -> Option<CommandView>;

    /// The command that sets the colour from a palette colour.
    spec fn palette_spec(&self, colour: Hsv) -> Option<CommandView>;

    /// The command that sets the colour temperature.
    spec fn temperature_spec(&self, temp: isize) -> Option<CommandView>;

    /// The command that selects a scene.
    spec fn scene_spec(&self, scene_name: Seq<char>) -> Option<CommandView>;

    /// The base address for where to send the API requests.
    fn addr(&self) -> (base: String)
        ensures
            base@ == self.addr_spec(),
    ;

    /// Generate the request to turn the lamp on or off.
    fn on_command(&self, state: bool) -> (cmd: Option<ApiCommand>)
        ensures
            command_view(cmd) == self.on_spec(state),
    ;

    /// Generate the request to set the brightness of the lamp.
    fn brightness_command(&self, val: isize) -> (cmd: Option<ApiCommand>)
        ensures
            command_view(cmd) == self.brightness_spec(val),
    ;

    /// Generate the request to change the colour of the lamp.
    fn colour_command(&self, hue: isize, sat: isize, bri: isize) -> (cmd: Option<ApiCommand>)
        ensures
            command_view(cmd) == self.colour_spec(hue, sat, bri),
    ;

    /// Generate the request to change the colour of the lamp to a palette
    /// colour.
    fn palette_command(&self, colour: Hsv) -> (cmd: Option<ApiCommand>)
        ensures
            command_view(cmd) == self.palette_spec(colour),
    ;

    /// Generate the request to change the colour temperature of the lamp.
    fn temperature_command(&self, temp: isize) -> (cmd: Option<ApiCommand>)
        ensures
            command_view(cmd) == self.temperature_spec(temp),
    ;

    /// Generate the request to select a scene.
    fn scene_command(&self, scene_name: String) -> (cmd: Option<ApiCommand>)
        ensures
            command_view(cmd) == self.scene_spec(scene_name@),
    ;

    /// The request that turns the lamp on or off.
    fn on(&self, state: bool) -> (request: Option<PutRequest>)
        ensures
            request_view(request) == request_for(self.addr_spec(), self.on_spec(state)),
    {
        self.put(&Sig::On(state))
    }

    /// The request that sets the brightness.
    fn brightness(&self, val: isize) -> (request: Option<PutRequest>)
        ensures
            request_view(request) == request_for(self.addr_spec(), self.brightness_spec(val)),
    {
        self.put(&Sig::Brightness(val))
    }

    /// The request that sets the colour.
    fn colour(&self, hue: isize, sat: isize, bri: isize) -> (request: Option<PutRequest>)
        ensures
            request_view(request) == request_for(
                self.addr_spec(),
                self.colour_spec(hue, sat, bri),
            ),
    {
        self.put(&Sig::Colour(hue, sat, bri))
    }

    /// The request that sets the colour from a palette colour.
    fn palette(&self, pal: Hsv) -> (request: Option<PutRequest>)
        ensures
            request_view(request) == request_for(self.addr_spec(), self.palette_spec(pal)),
    {
        self.put(&Sig::Palette(pal))
    }

    /// The request that sets the colour temperature.
    fn temperature(&self, temp: isize) -> (request: Option<PutRequest>)
        ensures
            request_view(request) == request_for(self.addr_spec(), self.temperature_spec(temp)),
    {
        self.put(&Sig::Temp(temp))
    }

    /// The PUT request that sends the given signal to the lamp, if the lamp
    /// has a command for it.
    fn put(&self, signal: &Sig) -> (request: Option<PutRequest>)
        ensures
            request_view(request) == request_for(
                self.addr_spec(),
                match *signal {
                    Sig::On(state) => self.on_spec(state),
                    Sig::Brightness(val) => self.brightness_spec(val),
                    Sig::Colour(hue, sat, bri) => self.colour_spec(hue, sat, bri),
                    Sig::Palette(colour) => self.palette_spec(colour),
                    Sig::Temp(temp) => self.temperature_spec(temp),
                    Sig::Scene(name) => self.scene_spec(name@),
                },
            ),
    {
        let cmd_signal = match signal {
            Sig::On(state) => self.on_command(*state),
            Sig::Brightness(val) => self.brightness_command(*val),
            Sig::Colour(hue, sat, bri) => self.colour_command(*hue, *sat, *bri),
            Sig::Palette(col) => self.palette_command(*col),
            Sig::Temp(temp) => self.temperature_command(*temp),
            Sig::Scene(name) => self.scene_command(name.clone()),
        };
        let cmd = match cmd_signal {
            Some(c) => c,
            None => {
                return None;
            },
        };
        let url = join(self.addr(), cmd.addr.as_str());
        Some(PutRequest { url, content_type: String::from_str("application/json"), body: cmd.json })
    }

    /// The address of the GET request that asks the lamp the given
    /// question.
    fn get(&self, signal: GetSig) -> (url: String)
        ensures
            url@ == match signal {
                GetSig::Scene => joined(self.addr_spec(), "effects/effectsList"@),
            },
    {
        let cmd = match signal {
            GetSig::Scene => ApiCommand {
                addr: String::from_str("effects/effectsList"),
                json: String::from_str(""),
            },
        };
        join(self.addr(), cmd.addr.as_str())
    }
}

/// The address `base/ext`.
pub fn join(base: String, ext: &str) -> (url: String)
    ensures
        url@ == joined(base@, ext@),
{
    let mut url = base;
    url.append("/");
    url.append(ext);
    proof {
        reveal_strlit("/");
    }
    url
}

/// The value `value * new_max / old_max`, the quotient rounded toward zero.
pub open spec fn scaled(value: int, old_max: int, new_max: int) -> int {
    if new_max >= 0 {
        (value * new_max) / old_max
    } else {
        -((value * (-new_max)) / old_max)
    }
}

/// A part `value` of `old_max`, taken of a size `size >= 0`, lies between
/// zero and `size`, and the whole of `old_max` gives `size` itself.
pub proof fn lemma_part_bounds(value: int, old_max: int, size: int)
    requires
        old_max > 0,
        0 <= value <= old_max,
        size >= 0,
    ensures
        0 <= value * size <= old_max * size,
        0 <= (value * size) / old_max <= size,
        (0 * size) / old_max == 0,
        (old_max * size) / old_max == size,
{
    assert(0 <= value * size <= old_max * size) by (nonlinear_arith)
        requires
            0 <= value <= old_max,
            size >= 0,
    ;
    assert(0 <= (value * size) / old_max <= size) by (nonlinear_arith)
        requires
            old_max > 0,
            0 <= value * size <= old_max * size,
    ;
    assert((0 * size) / old_max == 0) by (nonlinear_arith)
        requires
            old_max > 0,
    ;
    assert((old_max * size) / old_max == size) by (nonlinear_arith)
        requires
            old_max > 0,
    ;
}

/// Scale an integer `input_val` of the range `[0, old_max]` into the range
/// between zero and `new_max`. What is left below a whole number is cut
/// off; the ends of the one range give the ends of the other.
pub fn scale(input_val: isize, old_max: isize, new_max: isize) -> (scaled_val: isize)
    requires
        old_max > 0,
        0 <= input_val <= old_max,
    ensures
        scaled_val == scaled(input_val as int, old_max as int, new_max as int),
        input_val == 0 ==> scaled_val == 0,
        input_val == old_max ==> scaled_val == new_max,
{
    let value: i128 = input_val as i128;
    let whole: i128 = old_max as i128;
    if new_max >= 0 {
        let size: i128 = new_max as i128;
        proof {
            lemma_part_bounds(value as int, whole as int, size as int);
            assert(whole * size <= i128::MAX) by (nonlinear_arith)
                requires
                    0 < whole <= isize::MAX,
                    0 <= size <= isize::MAX,
                    isize::MAX <= 0x7fff_ffff_ffff_ffff,
                    i128::MAX == 0x7fff_ffff_ffff_ffff_ffff_ffff_ffff_ffff,
            ;
        }
        let part: i128 = value * size / whole;
        part as isize
    } else {
        let size: i128 = -(new_max as i128);
        proof {
            lemma_part_bounds(value as int, whole as int, size as int);
            assert(whole * size <= i128::MAX) by (nonlinear_arith)
                requires
                    0 < whole <= isize::MAX,
                    0 <= size <= isize::MAX + 1,
                    isize::MAX <= 0x7fff_ffff_ffff_ffff,
                    i128::MAX == 0x7fff_ffff_ffff_ffff_ffff_ffff_ffff_ffff,
            ;
        }
        let part: i128 = value * size / whole;
        (-part) as isize
    }
}

/// The wide integer that holds `n`, by `num_traits::cast` from `isize` to
/// `i128`, which succeeds on every `isize`.
#[verifier::external_body]
fn cast_wide(n: isize) -> (wide: Option<i128>)
    ensures
        wide == Some(n as i128),
{
    num_traits::cast(n)
}

/// The `isize` that holds `n`, by `num_traits::cast` from `i128` to
/// `isize`, which gives the number itself where an `isize` can represent
/// it, and nothing where it cannot.
#[verifier::external_body]
fn cast_narrow(n: i128) -> (narrow: Option<isize>)
    ensures
        narrow == if isize::MIN <= n <= isize::MAX {
            Some(n as isize)
        } else {
            None
        },
{
    num_traits::cast(n)
}

/// The value `value * new_max / old_max`, rounded to the nearest whole
/// number: half of `old_max` is added before the division. What lies half
/// way between two whole numbers is rounded away from zero.
pub open spec fn rounded(value: int, old_max: int, new_max: int) -> int {
    if new_max >= 0 {
        (value * new_max + old_max / 2) / old_max
    } else {
        -((value * (-new_max) + old_max / 2) / old_max)
    }
}

/// A part `value` of `old_max`, taken of a size `size >= 0` and rounded to
/// the nearest whole number, lies between zero and `size`; nothing of
/// `old_max` gives zero, and the whole of it gives `size` itself.
pub proof fn lemma_round_bounds(value: int, old_max: int, size: int)
    requires
        old_max > 0,
        0 <= value <= old_max,
        size >= 0,
    ensures
        0 <= value * size + old_max / 2 <= old_max * size + old_max / 2,
        0 <= (value * size + old_max / 2) / old_max <= size,
        (0 * size + old_max / 2) / old_max == 0,
        (old_max * size + old_max / 2) / old_max == size,
{
    let half = old_max / 2;
    let whole = old_max * size + half;
    let part = value * size + half;
    assert(0 <= value * size <= old_max * size) by (nonlinear_arith)
        requires
            0 <= value <= old_max,
            size >= 0,
    ;
    assert(0 * size + half == half) by (nonlinear_arith);
    vstd::arithmetic::div_mod::lemma_fundamental_div_mod_converse(half, old_max, 0, half);
    vstd::arithmetic::div_mod::lemma_fundamental_div_mod_converse(whole, old_max, size, half);
    vstd::arithmetic::div_mod::lemma_div_is_ordered(half, part, old_max);
    vstd::arithmetic::div_mod::lemma_div_is_ordered(part, whole, old_max);
}

/// The rounded value is the whole number nearest to
/// `value * size / old_max`: it lies no more than a half from it, and a
/// half only above it.
pub proof fn lemma_round_nearest(value: int, old_max: int, size: int)
    requires
        old_max > 0,
        0 <= value <= old_max,
        size >= 0,
    ensures
        ({
            let nearest = rounded(value, old_max, size);
            old_max * (2 * nearest - 1) <= 2 * (value * size) < old_max * (2 * nearest + 1)
        }),
{
    let half = old_max / 2;
    let part = value * size + half;
    let nearest = rounded(value, old_max, size);
    vstd::arithmetic::div_mod::lemma_fundamental_div_mod(part, old_max);
    let rest = part % old_max;
    assert(part == old_max * nearest + rest);
    assert(old_max * (2 * nearest - 1) == 2 * (old_max * nearest) - old_max
        && old_max * (2 * nearest + 1) == 2 * (old_max * nearest) + old_max)
        by (nonlinear_arith);
}

/// Scale a fixed-point value `input_val` of the range `[0, old_max]`, both
/// in one unit, into the range between zero and `new_max`. The result is
/// rounded to the nearest whole number.
pub fn scalegen(input_val: i64, old_max: i64, new_max: isize) -> (scaled_val: isize)
    requires
        old_max > 0,
        0 <= input_val <= old_max,
    ensures
        scaled_val == rounded(input_val as int, old_max as int, new_max as int),
        input_val == 0 ==> scaled_val == 0,
        input_val == old_max ==> scaled_val == new_max,
{
    let wide: i128 = cast_wide(new_max).unwrap();
    let size: i128 = if wide >= 0 {
        wide
    } else {
        -wide
    };
    proof {
        lemma_round_bounds(input_val as int, old_max as int, size as int);
        assert(old_max * size + old_max / 2
            <= 0x7fff_ffff_ffff_ffff_ffff_ffff_ffff_ffff) by (nonlinear_arith)
            requires
                0 < old_max <= 0x7fff_ffff_ffff_ffff,
                0 <= size <= 0x8000_0000_0000_0000,
        ;
        assert(0 <= input_val * size <= old_max * size) by (nonlinear_arith)
            requires
                0 <= input_val <= old_max,
                size >= 0,
        ;
    }
    let half: i128 = (old_max as i128) / 2;
    let unit_val: i128 = ((input_val as i128) * size + half) / (old_max as i128);
    if wide >= 0 {
        cast_narrow(unit_val).unwrap()
    } else {
        cast_narrow(-unit_val).unwrap()
    }
}

/// Scaling keeps the order: of two values of the range, the larger never
/// scales to less, as long as the new range is not negative.
pub proof fn lemma_scale_monotonic(low: int, high: int, old_max: int, new_max: int)
    requires
        old_max > 0,
        0 <= low <= high <= old_max,
        new_max >= 0,
    ensures
        scaled(low, old_max, new_max) <= scaled(high, old_max, new_max),
{
    assert(low * new_max <= high * new_max) by (nonlinear_arith)
        requires
            low <= high,
            new_max >= 0,
    ;
    vstd::arithmetic::div_mod::lemma_div_is_ordered(low * new_max, high * new_max, old_max);
}

/// Scaling maps the ends of the old range to the ends of the new one: zero
/// to zero, and `old_max` to `new_max`.
pub proof fn lemma_scale_ends(old_max: int, new_max: int)
    requires
        old_max > 0,
    ensures
        scaled(0, old_max, new_max) == 0,
        scaled(old_max, old_max, new_max) == new_max,
{
    if new_max >= 0 {
        lemma_part_bounds(0, old_max, new_max);
    } else {
        lemma_part_bounds(0, old_max, -new_max);
    }
}

/// Rounded scaling keeps the order: of two values of the range, the larger
/// never scales to less, as long as the new range is not negative.
pub proof fn lemma_round_monotonic(low: int, high: int, old_max: int, new_max: int)
    requires
        old_max > 0,
        0 <= low <= high <= old_max,
        new_max >= 0,
    ensures
        rounded(low, old_max, new_max) <= rounded(high, old_max, new_max),
{
    assert(low * new_max <= high * new_max) by (nonlinear_arith)
        requires
            low <= high,
            new_max >= 0,
    ;
    vstd::arithmetic::div_mod::lemma_div_is_ordered(
        low * new_max + old_max / 2,
        high * new_max + old_max / 2,
        old_max,
    );
}

/// Rounded scaling maps the ends of the old range to the ends of the new
/// one: zero to zero, and `old_max` to `new_max`.
pub proof fn lemma_round_ends(old_max: int, new_max: int)
    requires
        old_max > 0,
    ensures
        rounded(0, old_max, new_max) == 0,
        rounded(old_max, old_max, new_max) == new_max,
{
    if new_max >= 0 {
        lemma_round_bounds(0, old_max, new_max);
    } else {
        lemma_round_bounds(0, old_max, -new_max);
    }
}

} // verus!
