//! What the user asked for: the command line, once split into plain values,
//! becomes a `Config`, and a gradient becomes a run of timed steps.

use crate::colour::{mixed, Hsv, UNIT};
use crate::common::Sig;
use crate::text::{isize_of_text, parse_isize};
use vstd::prelude::*;
use vstd::string::*;

verus! {

/// Container for the command line arguments.
///
/// The rest of the behaviour of the project follows from this enum.
#[derive(Clone, Debug)]
pub enum Config {
    /// Go from one colour to another in timed steps.
    Gradient(GradientArgs),
    /// Send one signal.
    On(Sig),
    /// Turn the lamps off.
    Off,
    /// Select the scene of the given name or, where the flag is set, list
    /// the scenes.
    Scene(String, bool),
}

/// A transition between two colours.
#[derive(Clone, Copy, Debug, PartialEq, Eq, Structural)]
pub struct GradientArgs {
    /// The time that the whole transition takes, in seconds.
    pub total_time: u64,
    /// The number of colours that are sent.
    pub n_steps: u64,
    /// The colour to start from.
    pub hue_one: Hsv,
    /// The colour to end on.
    pub hue_two: Hsv,
}

/// Why the command line gives no `Config`.
#[derive(Clone, Copy, Debug, PartialEq, Eq, Structural)]
pub enum ConfigError {
    /// The brightness is no number.
    Brightness,
    /// The temperature is no number.
    Temperature,
    /// The colour is not three numbers.
    Colour,
    /// The palette colour is not three numbers.
    Palette,
    /// A gradient of no steps was asked for.
    Steps,
    /// There is no subcommand that could be read.
    NoCommand,
}

/// The values of the subcommand `on`.
#[derive(Clone, Debug)]
pub struct OnArgs {
    /// The value of `--brightness`, as it was typed.
    pub brightness: Option<String>,
    /// The value of `--temperature`, as it was typed.
    pub temperature: Option<String>,
    /// The values of `--colour`, as they were typed: hue, saturation,
    /// brightness.
    pub colour: Option<Vec<String>>,
    /// The colour that the values of `--palette` give, where they give one.
    pub palette: Option<Option<Hsv>>,
}

/// The values of the subcommand `scene`.
#[derive(Clone, Debug)]
pub struct SceneArgs {
    /// The value of `--name`.
    pub name: Option<String>,
    /// Whether `--list` was given.
    pub list: bool,
}

/// The subcommand that was given, with its values.
#[derive(Clone, Debug)]
pub enum Command {
    /// `gradient --time SECONDS --steps N`
    Gradient(u64, u64),
    /// `on`, with its options
    On(OnArgs),
    /// `scene`
    Scene(SceneArgs),
    /// `off`
    Off,
    /// None of these.
    Other,
}

impl ConfigError {
    /// The words that tell the user what went wrong.
    pub fn message(&self) -> (words: String)
        ensures
            words@ == match *self {
                ConfigError::Brightness => "Unable to parse brightness values from CLI"@,
                ConfigError::Temperature => "Unable to parse temperature values from CLI"@,
                ConfigError::Colour => "Unable to parse colour values from CLI"@,
                ConfigError::Palette => "Unable to parse palette values from CLI"@,
                ConfigError::Steps => "A gradient needs at least one step"@,
                ConfigError::NoCommand => "No configuration values to read"@,
            },
    {
        match self {
            ConfigError::Brightness => String::from_str(
                "Unable to parse brightness values from CLI",
            ),
            ConfigError::Temperature => String::from_str(
                "Unable to parse temperature values from CLI",
            ),
            ConfigError::Colour => String::from_str("Unable to parse colour values from CLI"),
            ConfigError::Palette => String::from_str("Unable to parse palette values from CLI"),
            ConfigError::Steps => String::from_str("A gradient needs at least one step"),
            ConfigError::NoCommand => String::from_str("No configuration values to read"),
        }
    }
}

/// The colour that a gradient starts from: an orange of full saturation.
pub open spec fn first_colour() -> Hsv {
    Hsv { hue: 30_000_000, saturation: 1_000_000, value: 1_000_000 }
}

/// The colour that a gradient ends on: the same orange, pale.
pub open spec fn second_colour() -> Hsv {
    Hsv { hue: 30_000_000, saturation: 300_000, value: 1_000_000 }
}

/// The transition of `n_steps` colours over `total_time` seconds, from the
/// first colour to the second.
pub open spec fn gradient_of(total_time: u64, n_steps: u64) -> GradientArgs {
    GradientArgs { total_time, n_steps, hue_one: first_colour(), hue_two: second_colour() }
}

/// Parse the "gradient" subsection from the command line: a transition of
/// `n_steps` colours over `total_time` seconds.
pub fn get_gradient_config(total_time: u64, n_steps: u64) -> (config: Result<Config, ConfigError>)
    ensures
        if n_steps == 0 {
            config matches Err(ConfigError::Steps)
        } else {
            config matches Ok(Config::Gradient(args)) && args == gradient_of(total_time, n_steps)
                && args.wf()
        },
{
    if n_steps == 0 {
        return Err(ConfigError::Steps);
    }
    let hue_one = Hsv::new(30 * UNIT, UNIT, UNIT);
    let hue_two = Hsv::new(30 * UNIT, 300_000, UNIT);
    let args = GradientArgs { total_time, n_steps, hue_one, hue_two };
    Ok(Config::Gradient(args))
}

/// Whether each of the typed values is a number.
pub open spec fn all_numbers(values: Seq<String>) -> bool {
    forall|i: int| 0 <= i < values.len() ==> isize_of_text(#[trigger] values[i]@) is Some
}

/// The signal that the values of `on` ask for: the first that is given of
/// brightness, temperature, colour and palette, and plain "on" where none
/// is.
pub open spec fn on_signal(args: OnArgs) -> Result<Sig, ConfigError> {
    if let Some(bri) = args.brightness {
        match isize_of_text(bri@) {
            Some(brightness) => Ok(Sig::Brightness(brightness)),
            None => Err(ConfigError::Brightness),
        }
    } else if let Some(temp) = args.temperature {
        match isize_of_text(temp@) {
            Some(temperature) => Ok(Sig::Temp(temperature)),
            None => Err(ConfigError::Temperature),
        }
    } else if let Some(colour) = args.colour {
        if colour@.len() == 3 && all_numbers(colour@) {
            Ok(
                Sig::Colour(
                    isize_of_text(colour@[0]@)->0,
                    isize_of_text(colour@[1]@)->0,
                    isize_of_text(colour@[2]@)->0,
                ),
            )
        } else {
            Err(ConfigError::Colour)
        }
    } else if let Some(palette) = args.palette {
        match palette {
            Some(colour) => Ok(Sig::Palette(colour)),
            None => Err(ConfigError::Palette),
        }
    } else {
        Ok(Sig::On(true))
    }
}

/// The numbers that the typed values denote, if each of them is a number.
pub fn parse_values(values: &Vec<String>) -> (numbers: Option<Vec<isize>>)
    ensures
        match numbers {
            Some(numbers) => all_numbers(values@) && numbers@.len() == values@.len() && forall|
                i: int,
            |
                0 <= i < values@.len() ==> isize_of_text(#[trigger] values@[i]@) == Some(
                    numbers@[i],
                ),
            None => !all_numbers(values@),
        },
{
    let mut numbers: Vec<isize> = Vec::new();
    let mut i: usize = 0;
    while i < values.len()
        invariant
            i <= values.len(),
            numbers@.len() == i,
            forall|k: int|
                0 <= k < i ==> isize_of_text(#[trigger] values@[k]@) == Some(numbers@[k]),
        decreases values.len() - i,
    {
        match parse_isize(values[i].as_str()) {
            Some(number) => {
                numbers.push(number);
            },
            None => {
                return None;
            },
        }
        i = i + 1;
    }
    Some(numbers)
}

/// Parse the "on" subsection from the command line.
pub fn get_on_config(args: &OnArgs) -> (config: Result<Config, ConfigError>)
    ensures
        match on_signal(*args) {
            Ok(signal) => config matches Ok(Config::On(sent)) && sent == signal,
            Err(e) => config matches Err(refused) && refused == e,
        },
{
    let conf = if let Some(bri) = &args.brightness {
        match parse_isize(bri.as_str()) {
            Some(brightness) => Sig::Brightness(brightness),
            None => {
                return Err(ConfigError::Brightness);
            },
        }
    } else if let Some(temp) = &args.temperature {
        match parse_isize(temp.as_str()) {
            Some(temperature) => Sig::Temp(temperature),
            None => {
                return Err(ConfigError::Temperature);
            },
        }
    } else if let Some(colour) = &args.colour {
        let numbers = match parse_values(colour) {
            Some(numbers) => numbers,
            None => {
                return Err(ConfigError::Colour);
            },
        };
        match unpack_values(&numbers) {
            Some((hue, sat, bri)) => Sig::Colour(hue, sat, bri),
            None => {
                return Err(ConfigError::Colour);
            },
        }
    } else if let Some(palette) = &args.palette {
        match palette {
            Some(colour) => Sig::Palette(*colour),
            None => {
                return Err(ConfigError::Palette);
            },
        }
    } else {
        Sig::On(true)
    };
    Ok(Config::On(conf))
}

/// Whether the values of `scene` ask for this: the list of the scenes,
/// where `--list` is given or no name is, else the scene of the given name.
pub open spec fn scene_choice(args: SceneArgs, scene_name: Seq<char>, list: bool) -> bool {
    match args.name {
        Some(name) => if args.list {
            list && scene_name == ""@
        } else {
            !list && scene_name == name@
        },
        None => list && scene_name == ""@,
    }
}

/// Parse the "scene" subsection from the command line: the scenes are
/// listed where that is asked for or no name is given, else the scene of
/// the given name is selected.
pub fn get_scene_config(args: &SceneArgs) -> (config: Result<Config, ConfigError>)
    ensures
        config matches Ok(Config::Scene(scene_name, list)) && scene_choice(
            *args,
            scene_name@,
            list,
        ),
{
    match &args.name {
        Some(name) => {
            if args.list {
                Ok(Config::Scene(String::from_str(""), true))
            } else {
                Ok(Config::Scene(name.clone(), false))
            }
        },
        None => Ok(Config::Scene(String::from_str(""), true)),
    }
}

/// Get a configuration object from the command line arguments.
pub fn get_config(command: &Command) -> (config: Result<Config, ConfigError>)
    ensures
        match *command {
            Command::Gradient(total_time, n_steps) => if n_steps == 0 {
                config matches Err(ConfigError::Steps)
            } else {
                config matches Ok(Config::Gradient(args)) && args == gradient_of(
                    total_time,
                    n_steps,
                )
            },
            Command::On(args) => match on_signal(args) {
                Ok(signal) => config matches Ok(Config::On(sent)) && sent == signal,
                Err(e) => config matches Err(refused) && refused == e,
            },
            Command::Scene(args) => config matches Ok(Config::Scene(scene_name, list))
                && scene_choice(args, scene_name@, list),
            Command::Off => config matches Ok(Config::Off),
            Command::Other => config matches Err(ConfigError::NoCommand),
        },
{
    match command {
        Command::Gradient(total_time, n_steps) => get_gradient_config(*total_time, *n_steps),
        Command::On(args) => get_on_config(args),
        Command::Scene(args) => get_scene_config(args),
        Command::Off => Ok(Config::Off),
        Command::Other => Err(ConfigError::NoCommand),
    }
}

/// The three values of an option that takes hue, saturation and
/// brightness, if there are three.
pub fn unpack_values<T: Copy>(values: &Vec<T>) -> (unpacked: Option<(T, T, T)>)
    ensures
        values@.len() == 3 ==> unpacked == Some((values@[0], values@[1], values@[2])),
        values@.len() != 3 ==> unpacked is None,
{
    if values.len() == 3 {
        Some((values[0], values[1], values[2]))
    } else {
        None
    }
}

/// The pause between two steps of a transition.
#[derive(Clone, Copy, Debug, PartialEq, Eq, Structural)]
pub struct Delay {
    /// The whole seconds.
    pub secs: u64,
    /// What is left, in nanoseconds: less than a second.
    pub nanos: u32,
}

/// One action of a running transition.
#[derive(Clone, Debug)]
pub enum GradientStep {
    /// Send this signal to the lamp.
    Emit(Sig),
    /// Let this time pass.
    Wait(Delay),
}

/// The nanoseconds of one second.
pub const NANOS_PER_SEC: u64 = 1_000_000_000;

impl GradientArgs {
    /// Whether the transition can be run: it has a step, and its colours
    /// lie in their range.
    pub open spec fn wf(&self) -> bool {
        &&& self.n_steps >= 1
        &&& self.hue_one.in_range()
        &&& self.hue_two.in_range()
    }

    /// The pause between two steps, in nanoseconds: the total time divided
    /// by the number of steps.
    pub open spec fn pause_nanos(&self) -> int {
        (self.total_time * NANOS_PER_SEC) / (self.n_steps as int)
    }

    /// The pause between two steps.
    pub open spec fn delay_spec(&self) -> Delay {
        Delay {
            secs: (self.pause_nanos() / (NANOS_PER_SEC as int)) as u64,
            nanos: (self.pause_nanos() % (NANOS_PER_SEC as int)) as u32,
        }
    }

    /// The colour of the step `step`, counted from zero: the steps are
    /// spaced evenly from the first colour to the second, which is the
    /// colour of the last step.
    pub open spec fn colour_at(&self, step: int) -> Hsv {
        if step + 1 == self.n_steps {
            self.hue_two
        } else {
            mixed(self.hue_one, self.hue_two, step, self.n_steps - 1)
        }
    }

    /// What a run of the transition does, in order: each colour is sent,
    /// and between two colours lies one pause.
    pub open spec fn schedule(&self) -> Seq<GradientStep> {
        Seq::new(
            (2 * self.n_steps - 1) as nat,
            |k: int|
                if k % 2 == 0 {
                    GradientStep::Emit(Sig::Palette(self.colour_at(k / 2)))
                } else {
                    GradientStep::Wait(self.delay_spec())
                },
        )
    }

    /// Whether the transition can be run.
    pub fn is_valid(&self) -> (valid: bool)
        ensures
            valid == self.wf(),
    {
        self.n_steps >= 1 && self.hue_one.is_in_range() && self.hue_two.is_in_range()
    }

    /// The pause between two steps.
    pub fn delay(&self) -> (delay: Delay)
        requires
            self.n_steps >= 1,
        ensures
            delay == self.delay_spec(),
            delay.secs * NANOS_PER_SEC + delay.nanos == self.pause_nanos(),
            delay.nanos < NANOS_PER_SEC,
    {
        let secs: u64 = self.total_time / self.n_steps;
        let carry: u64 = self.total_time % self.n_steps;
        proof {
            assert(carry * NANOS_PER_SEC <= u128::MAX) by (nonlinear_arith)
                requires
                    0 <= carry <= u64::MAX,
                    NANOS_PER_SEC == 1_000_000_000,
            ;
        }
        let extra: u128 = (carry as u128) * (NANOS_PER_SEC as u128) / (self.n_steps as u128);
        proof {
            let total = self.total_time as int;
            let n = self.n_steps as int;
            let giga = NANOS_PER_SEC as int;
            let left = (carry * giga) % n;
            vstd::arithmetic::div_mod::lemma_fundamental_div_mod(total, n);
            vstd::arithmetic::div_mod::lemma_fundamental_div_mod(carry * giga, n);
            assert(extra < giga) by (nonlinear_arith)
                requires
                    0 <= carry < n,
                    carry * giga == n * extra + left,
                    0 <= left < n,
                    giga > 0,
            ;
            assert(total * giga == n * (secs * giga + extra) + left) by (nonlinear_arith)
                requires
                    total == n * secs + carry,
                    carry * giga == n * extra + left,
            ;
            vstd::arithmetic::div_mod::lemma_fundamental_div_mod_converse(
                total * giga,
                n,
                secs * giga + extra,
                left,
            );
            assert(secs * giga + extra == giga * secs + extra) by (nonlinear_arith);
            vstd::arithmetic::div_mod::lemma_fundamental_div_mod_converse(
                self.pause_nanos(),
                giga,
                secs as int,
                extra as int,
            );
        }
        Delay { secs, nanos: extra as u32 }
    }

    /// The colour of the step `step`, counted from zero.
    pub fn colour(&self, step: u64) -> (colour: Hsv)
        requires
            self.wf(),
            step < self.n_steps,
        ensures
            colour == self.colour_at(step as int),
    {
        if step + 1 == self.n_steps {
            self.hue_two
        } else {
            self.hue_one.mix(&self.hue_two, step, self.n_steps - 1)
        }
    }
}

/// A transition that is being run: it hands out its actions one by one.
#[derive(Clone, Copy, Debug)]
pub struct GradientRun {
    args: GradientArgs,
    emitted: u64,
    waiting: bool,
}

impl GradientRun {
    /// The transition that is run.
    pub closed spec fn args(&self) -> GradientArgs {
        self.args
    }

    /// How many actions of the schedule were handed out.
    pub closed spec fn position(&self) -> nat {
        if self.waiting {
            (2 * self.emitted - 1) as nat
        } else if self.emitted == self.args.n_steps {
            (2 * self.emitted - 1) as nat
        } else {
            (2 * self.emitted) as nat
        }
    }

    /// A run is in a state that a run can reach: it did not send more than
    /// its steps, and it pauses only between two of them.
    #[verifier::type_invariant]
    closed spec fn wf(&self) -> bool {
        &&& self.args.wf()
        &&& self.emitted <= self.args.n_steps
        &&& self.waiting ==> 1 <= self.emitted < self.args.n_steps
    }

    /// The next action of the run, or nothing when the run is over: the
    /// actions come as the schedule orders them, each once.
    pub fn next(&mut self) -> (step: Option<GradientStep>)
        ensures
            final(self).args() == old(self).args(),
            old(self).position() < old(self).args().schedule().len() ==> step == Some(
                old(self).args().schedule()[old(self).position() as int],
            ) && final(self).position() == old(self).position() + 1,
            old(self).position() >= old(self).args().schedule().len() ==> step is None
                && final(self).position() == old(self).position(),
    {
        proof {
            use_type_invariant(&*self);
        }
        if self.waiting {
            self.waiting = false;
            Some(GradientStep::Wait(self.args.delay()))
        } else if self.emitted == self.args.n_steps {
            None
        } else {
            let colour = self.args.colour(self.emitted);
            self.emitted = self.emitted + 1;
            self.waiting = self.emitted < self.args.n_steps;
            Some(GradientStep::Emit(Sig::Palette(colour)))
        }
    }
}

/// Transition between two colours: the run of `args`, before its first
/// action.
pub fn set_gradient(args: &GradientArgs) -> (run: GradientRun)
    requires
        args.wf(),
    ensures
        run.args() == *args,
        run.position() == 0,
{
    GradientRun { args: *args, emitted: 0, waiting: false }
}

/// How many of the actions send a signal.
pub open spec fn emissions(steps: Seq<GradientStep>) -> nat
    decreases steps.len(),
{
    if steps.len() == 0 {
        0
    } else {
        emissions(steps.drop_last()) + if steps.last() is Emit {
            1nat
        } else {
            0nat
        }
    }
}

/// Among the first `k` actions of a schedule, every second one sends a
/// signal, starting with the first.
proof fn lemma_emissions_prefix(args: GradientArgs, k: int)
    requires
        args.wf(),
        0 <= k <= args.schedule().len(),
    ensures
        emissions(args.schedule().take(k)) == (k + 1) / 2,
    decreases k,
{
    let first = args.schedule().take(k);
    if k > 0 {
        lemma_emissions_prefix(args, k - 1);
        assert(first.drop_last() =~= args.schedule().take(k - 1));
        assert(first.last() == args.schedule()[k - 1]);
    }
}

/// A run of `n_steps` steps sends exactly `n_steps` signals, the colours of
/// the steps in their order and the second colour last, and lets the pause
/// pass between each two of them, and at no other time.
pub proof fn lemma_schedule(args: GradientArgs)
    requires
        args.wf(),
    ensures
        emissions(args.schedule()) == args.n_steps,
        args.schedule().len() == 2 * args.n_steps - 1,
        forall|i: int|
            0 <= i < args.n_steps ==> #[trigger] args.schedule()[2 * i] == GradientStep::Emit(
                Sig::Palette(args.colour_at(i)),
            ),
        forall|i: int|
            0 <= i < args.n_steps - 1 ==> #[trigger] args.schedule()[2 * i + 1]
                == GradientStep::Wait(args.delay_spec()),
        args.schedule().last() == GradientStep::Emit(Sig::Palette(args.hue_two)),
        args.delay_spec().secs * NANOS_PER_SEC + args.delay_spec().nanos == args.pause_nanos(),
{
    let len = args.schedule().len() as int;
    lemma_emissions_prefix(args, len);
    assert(args.schedule().take(len) =~= args.schedule());
    let giga = NANOS_PER_SEC as int;
    assert(0 <= args.pause_nanos() <= args.total_time * giga) by (nonlinear_arith)
        requires
            args.pause_nanos() == (args.total_time * giga) / (args.n_steps as int),
            args.n_steps >= 1,
            args.total_time >= 0,
            giga > 0,
    ;
    vstd::arithmetic::div_mod::lemma_fundamental_div_mod(args.pause_nanos(), giga);
    assert(0 <= args.pause_nanos() / giga <= args.total_time) by (nonlinear_arith)
        requires
            0 <= args.pause_nanos() <= args.total_time * giga,
            giga > 0,
    ;
    assert(giga * (args.pause_nanos() / giga) == (args.pause_nanos() / giga) * giga)
        by (nonlinear_arith);
}

} // verus!
