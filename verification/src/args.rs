//! Command-line arguments: how a list of arguments changes the settings, and
//! what there is to warn about on the way.
//!
//! The arguments are read from left to right. An option takes the arguments
//! that follow it as its values, and those are then read again as arguments of
//! their own. A value that cannot be read leaves the setting as it stands and
//! adds a warning. The option `-h` ends the reading.

use crate::config::{usual_settings, GeneratorData, Settings};
use crate::numeral::{
    chars_of, parse_signed, parse_unsigned, parse_unsigned_in, signed_reading, unsigned_reading,
};
use crate::vector3uint::Vector3Usize;
use vstd::prelude::*;

verus! {

/// One argument: its text, and the bit pattern of the single-precision number
/// that the text reads as, if it reads as one.
#[derive(Clone, Debug)]
pub struct Argument {
    pub text: String,
    pub radius: Option<u32>,
}

/// What the reading of the arguments warns about. Each warning carries the
/// values that stay in force.
#[derive(Clone, Copy, Debug, PartialEq, Eq, Structural)]
pub enum Warning {
    /// `-o` without a name.
    OutputNameMissing,
    /// `-v` with a value that is no number of variations.
    VariationsInvalid(u32),
    /// `-v` without a value.
    VariationsMissing(u32),
    /// `-i` with a value that is no number of spheres.
    InstancesInvalid(i32),
    /// `-i` without a value.
    InstancesMissing(i32),
    /// `-r` with a first value that is no radius.
    BottomRadiusInvalid(u32),
    /// `-r` with a last value that is no radius.
    TopRadiusInvalid(u32),
    /// `-r` without a value.
    RadiusMissing(u32, u32),
    /// `-n` with a value that is no threshold.
    EmptySpaceInvalid(u32),
    /// `-n` without a value.
    EmptySpaceMissing(u32),
    /// `-q` with a value that is no noise spread.
    NoiseInvalid(u32),
    /// `-q` without a value.
    NoiseMissing(u32),
    /// `-d` with three sizes of which those marked cannot be read.
    DimensionsInvalid { x: bool, y: bool, z: bool },
    /// `-d` with a value that does not hold three sizes.
    DimensionsIncomplete(Vector3Usize),
    /// `-d` without a value.
    DimensionsMissing(Vector3Usize),
}

/// Where a reading stands: the settings, the warnings, and whether help was
/// asked for.
pub struct Outcome {
    pub settings: Settings,
    pub warnings: Seq<Warning>,
    pub help: bool,
}

/// What the reading of the arguments gives: the settings as they stood when
/// the reading ended, the warnings in the order in which they arose, and
/// whether the reading ended on `-h`.
#[derive(Clone, Debug)]
pub struct Parsed {
    pub data: GeneratorData,
    pub warnings: Vec<Warning>,
    pub help: bool,
}

impl View for Parsed {
    type V = Outcome;

    open spec fn view(&self) -> Outcome {
        Outcome { settings: self.data@, warnings: self.warnings@, help: self.help }
    }
}

/// Whether `text` is the option with the given letter.
pub open spec fn is_option(text: Seq<char>, letter: char) -> bool {
    text.len() == 2 && text[0] == '-' && text[1] == letter
}

/// The settings change and there is nothing to warn about.
pub open spec fn changed(settings: Settings) -> Outcome {
    Outcome { settings, warnings: Seq::empty(), help: false }
}

/// The settings stay and there is one warning.
pub open spec fn kept(settings: Settings, warning: Warning) -> Outcome {
    Outcome { settings, warnings: seq![warning], help: false }
}

/// The effect of `-o` at place `i`.
pub open spec fn name_option(args: Seq<Argument>, i: int, s: Settings) -> Outcome {
    if i + 1 < args.len() {
        changed(Settings { generation_name: args[i + 1].text@, ..s })
    } else {
        kept(s, Warning::OutputNameMissing)
    }
}

/// The effect of `-v` at place `i`.
pub open spec fn variations_option(args: Seq<Argument>, i: int, s: Settings) -> Outcome {
    if i + 1 < args.len() {
        match unsigned_reading(args[i + 1].text@, u32::MAX as nat) {
            Some(v) => changed(Settings { variation_count: v as u32, ..s }),
            None => kept(s, Warning::VariationsInvalid(s.variation_count)),
        }
    } else {
        kept(s, Warning::VariationsMissing(s.variation_count))
    }
}

/// The effect of `-i` at place `i`.
pub open spec fn instances_option(args: Seq<Argument>, i: int, s: Settings) -> Outcome {
    if i + 1 < args.len() {
        match signed_reading(args[i + 1].text@, i32::MAX as nat) {
            Some(v) => changed(Settings { sphere_count: v as i32, ..s }),
            None => kept(s, Warning::InstancesInvalid(s.sphere_count)),
        }
    } else {
        kept(s, Warning::InstancesMissing(s.sphere_count))
    }
}

/// The effect of `-r` at place `i`: with two values after it they are the
/// smallest and the largest radius, each taken if it reads as a radius; with
/// one value after it, that is the largest radius and zero is the smallest.
pub open spec fn radius_option(args: Seq<Argument>, i: int, s: Settings) -> Outcome {
    if i + 2 < args.len() {
        let bottom = args[i + 1].radius;
        let top = args[i + 2].radius;
        Outcome {
            settings: Settings {
                min_sphere_radius: match bottom {
                    Some(bits) => bits,
                    None => s.min_sphere_radius,
                },
                max_sphere_radius: match top {
                    Some(bits) => bits,
                    None => s.max_sphere_radius,
                },
                ..s
            },
            warnings: (if bottom is None {
                seq![Warning::BottomRadiusInvalid(s.min_sphere_radius)]
            } else {
                Seq::empty()
            }) + (if top is None {
                seq![Warning::TopRadiusInvalid(s.max_sphere_radius)]
            } else {
                Seq::empty()
            }),
            help: false,
        }
    } else if i + 1 < args.len() {
        match args[i + 1].radius {
            Some(bits) => changed(Settings { min_sphere_radius: 0, max_sphere_radius: bits, ..s }),
            None => kept(s, Warning::TopRadiusInvalid(s.max_sphere_radius)),
        }
    } else {
        kept(s, Warning::RadiusMissing(s.min_sphere_radius, s.max_sphere_radius))
    }
}

/// The effect of `-n` at place `i`.
pub open spec fn empty_space_option(args: Seq<Argument>, i: int, s: Settings) -> Outcome {
    if i + 1 < args.len() {
        match unsigned_reading(args[i + 1].text@, u32::MAX as nat) {
            Some(v) => changed(Settings { empty_space: v as u32, ..s }),
            None => kept(s, Warning::EmptySpaceInvalid(s.empty_space)),
        }
    } else {
        kept(s, Warning::EmptySpaceMissing(s.empty_space))
    }
}

/// The effect of `-q` at place `i`.
pub open spec fn noise_option(args: Seq<Argument>, i: int, s: Settings) -> Outcome {
    if i + 1 < args.len() {
        match unsigned_reading(args[i + 1].text@, u32::MAX as nat) {
            Some(v) => changed(Settings { noise_span: v as u32, ..s }),
            None => kept(s, Warning::NoiseInvalid(s.noise_span)),
        }
    } else {
        kept(s, Warning::NoiseMissing(s.noise_span))
    }
}

/// The places of the letter `x` in `text`, in rising order.
pub open spec fn separators(text: Seq<char>) -> Seq<int>
    decreases text.len(),
{
    if text.len() == 0 {
        Seq::empty()
    } else if text.last() == 'x' {
        separators(text.drop_last()).push(text.len() - 1)
    } else {
        separators(text.drop_last())
    }
}

/// What `part` reads as where the size of a grid along one axis is wanted.
pub open spec fn axis_reading(part: Seq<char>) -> Option<nat> {
    unsigned_reading(part, usize::MAX as nat)
}

/// The size along one axis after a reading: what was read, or else what was
/// there.
pub open spec fn axis_after(reading: Option<nat>, current: usize) -> usize {
    match reading {
        Some(v) => v as usize,
        None => current,
    }
}

/// What `text` reads as where three grid sizes are wanted, and what there is
/// to warn about. A text with exactly two letters `x` holds three sizes: each
/// one that can be read replaces the size in `current`, and the others are
/// marked in a warning. Any other text leaves `current` as it is.
pub open spec fn dimensions_reading(text: Seq<char>, current: Vector3Usize) -> (
    Vector3Usize,
    Seq<Warning>,
) {
    let cuts = separators(text);
    if cuts.len() == 2 {
        let x = axis_reading(text.subrange(0, cuts[0]));
        let y = axis_reading(text.subrange(cuts[0] + 1, cuts[1]));
        let z = axis_reading(text.subrange(cuts[1] + 1, text.len() as int));
        let dims = Vector3Usize {
            x: axis_after(x, current.x),
            y: axis_after(y, current.y),
            z: axis_after(z, current.z),
        };
        if x is None || y is None || z is None {
            (dims, seq![Warning::DimensionsInvalid { x: x is None, y: y is None, z: z is None }])
        } else {
            (dims, Seq::empty())
        }
    } else {
        (current, seq![Warning::DimensionsIncomplete(current)])
    }
}

/// The effect of `-d` at place `i`.
pub open spec fn dimensions_option(args: Seq<Argument>, i: int, s: Settings) -> Outcome {
    if i + 1 < args.len() {
        let (dims, warnings) = dimensions_reading(args[i + 1].text@, s.pixel_dimensions);
        Outcome { settings: Settings { pixel_dimensions: dims, ..s }, warnings, help: false }
    } else {
        kept(s, Warning::DimensionsMissing(s.pixel_dimensions))
    }
}

/// The effect of the argument at place `i` on the settings `s`.
pub open spec fn argument_effect(args: Seq<Argument>, i: int, s: Settings) -> Outcome {
    let text = args[i].text@;
    if is_option(text, 'o') {
        name_option(args, i, s)
    } else if is_option(text, 'v') {
        variations_option(args, i, s)
    } else if is_option(text, 'i') {
        instances_option(args, i, s)
    } else if is_option(text, 'r') {
        radius_option(args, i, s)
    } else if is_option(text, 'n') {
        empty_space_option(args, i, s)
    } else if is_option(text, 'q') {
        noise_option(args, i, s)
    } else if is_option(text, 'd') {
        dimensions_option(args, i, s)
    } else if is_option(text, 'h') {
        Outcome { settings: s, warnings: Seq::empty(), help: true }
    } else {
        changed(s)
    }
}

/// The reading of the arguments from place `i` on, where the reading so far
/// stands at `so_far`.
pub open spec fn reading_from(args: Seq<Argument>, i: int, so_far: Outcome) -> Outcome
    decreases args.len() - i,
{
    if i < 0 || i >= args.len() || so_far.help {
        so_far
    } else {
        let effect = argument_effect(args, i, so_far.settings);
        reading_from(
            args,
            i + 1,
            Outcome {
                settings: effect.settings,
                warnings: so_far.warnings + effect.warnings,
                help: effect.help,
            },
        )
    }
}

/// The reading of all the arguments, begun at the usual settings.
pub open spec fn reading(args: Seq<Argument>) -> Outcome {
    reading_from(args, 0, changed(usual_settings()))
}

/// The places of the letter `x` in `s`.
fn find_separators(s: &Vec<char>) -> (cuts: Vec<usize>)
    ensures
        cuts@.map_values(|c: usize| c as int) == separators(s@),
        forall|k: int| 0 <= k < cuts.len() ==> cuts[k] < s.len(),
        forall|k: int, l: int| 0 <= k < l < cuts.len() ==> cuts[k] < cuts[l],
{
    let mut cuts: Vec<usize> = Vec::new();
    let mut i: usize = 0;
    while i < s.len()
        invariant
            i <= s.len(),
            cuts@.map_values(|c: usize| c as int) =~= separators(s@.take(i as int)),
            forall|k: int| 0 <= k < cuts.len() ==> cuts[k] < i,
            forall|k: int, l: int| 0 <= k < l < cuts.len() ==> cuts[k] < cuts[l],
        decreases s.len() - i,
    {
        assert(s@.take(i + 1).drop_last() =~= s@.take(i as int));
        if s[i] == 'x' {
            cuts.push(i);
        }
        i += 1;
    }
    assert(s@.take(i as int) =~= s@);
    cuts
}

/// Reads the part of `s` from `start` up to `end` as the size of a grid along
/// one axis.
fn read_axis(s: &Vec<char>, start: usize, end: usize) -> (r: Option<usize>)
    requires
        start <= end <= s.len(),
    ensures
        r matches Some(v) ==> axis_reading(s@.subrange(start as int, end as int)) == Some(
            v as nat,
        ),
        r is None ==> axis_reading(s@.subrange(start as int, end as int)) is None,
{
    match parse_unsigned_in(s, start, end, usize::MAX as u64) {
        Some(v) => Some(v as usize),
        None => None,
    }
}

/// Reads `text` as three grid sizes that are to replace `current`: the sizes
/// after the reading, and the warning if there is one.
pub fn read_dimensions(text: &str, current: Vector3Usize) -> (r: (Vector3Usize, Option<Warning>))
    ensures
        r.0 == dimensions_reading(text@, current).0,
        dimensions_reading(text@, current).1 == match r.1 {
            Some(w) => seq![w],
            None => Seq::<Warning>::empty(),
        },
{
    let s = chars_of(text);
    let cuts = find_separators(&s);
    if cuts.len() == 2 {
        let x = read_axis(&s, 0, cuts[0]);
        let y = read_axis(&s, cuts[0] + 1, cuts[1]);
        let z = read_axis(&s, cuts[1] + 1, s.len());
        let dims = Vector3Usize::new(
            match x {
                Some(v) => v,
                None => current.x,
            },
            match y {
                Some(v) => v,
                None => current.y,
            },
            match z {
                Some(v) => v,
                None => current.z,
            },
        );
        if x.is_none() || y.is_none() || z.is_none() {
            (dims, Some(Warning::DimensionsInvalid { x: x.is_none(), y: y.is_none(), z: z.is_none() }))
        } else {
            (dims, None)
        }
    } else {
        (current, Some(Warning::DimensionsIncomplete(current)))
    }
}

/// The letter of the option that `text` is, if it is one.
fn option_letter(text: &str) -> (letter: Option<char>)
    ensures
        letter matches Some(c) ==> is_option(text@, c),
        letter is None ==> forall|c: char| !is_option(text@, c),
{
    let s = chars_of(text);
    if s.len() == 2 && s[0] == '-' {
        Some(s[1])
    } else {
        None
    }
}

/// The outcome of an argument that leaves nothing to warn about.
fn settled(data: GeneratorData) -> (r: Parsed)
    ensures
        r@ == changed(data@),
{
    Parsed { data, warnings: Vec::new(), help: false }
}

/// The outcome of an argument that leaves the settings and one warning.
fn warned(data: GeneratorData, warning: Warning) -> (r: Parsed)
    ensures
        r@ == kept(data@, warning),
{
    let mut warnings: Vec<Warning> = Vec::new();
    warnings.push(warning);
    Parsed { data, warnings, help: false }
}

/// Applies `-o` at place `i`.
fn take_name(args: &Vec<Argument>, i: usize, data: GeneratorData) -> (r: Parsed)
    requires
        i < args.len(),
    ensures
        r@ == name_option(args@, i as int, data@),
{
    if args.len() - i > 1 {
        let mut data = data;
        data.generation_name = args[i + 1].text.clone();
        settled(data)
    } else {
        warned(data, Warning::OutputNameMissing)
    }
}

/// Applies `-v` at place `i`.
fn take_variations(args: &Vec<Argument>, i: usize, data: GeneratorData) -> (r: Parsed)
    requires
        i < args.len(),
    ensures
        r@ == variations_option(args@, i as int, data@),
{
    if args.len() - i > 1 {
        match parse_unsigned(args[i + 1].text.as_str(), u32::MAX as u64) {
            Some(v) => {
                let mut data = data;
                data.variation_count = v as u32;
                settled(data)
            },
            None => {
                let current = data.variation_count;
                warned(data, Warning::VariationsInvalid(current))
            },
        }
    } else {
        let current = data.variation_count;
        warned(data, Warning::VariationsMissing(current))
    }
}

/// Applies `-i` at place `i`.
fn take_instances(args: &Vec<Argument>, i: usize, data: GeneratorData) -> (r: Parsed)
    requires
        i < args.len(),
    ensures
        r@ == instances_option(args@, i as int, data@),
{
    if args.len() - i > 1 {
        match parse_signed(args[i + 1].text.as_str(), i32::MAX as u32) {
            Some(v) => {
                let mut data = data;
                data.sphere_count = v as i32;
                settled(data)
            },
            None => {
                let current = data.sphere_count;
                warned(data, Warning::InstancesInvalid(current))
            },
        }
    } else {
        let current = data.sphere_count;
        warned(data, Warning::InstancesMissing(current))
    }
}

/// Applies `-r` at place `i`.
fn take_radii(args: &Vec<Argument>, i: usize, data: GeneratorData) -> (r: Parsed)
    requires
        i < args.len(),
    ensures
        r@ == radius_option(args@, i as int, data@),
{
    if args.len() - i > 2 {
        let mut warnings: Vec<Warning> = Vec::new();
        let mut next = data;
        match args[i + 1].radius {
            Some(bits) => {
                next.min_sphere_radius = bits;
            },
            None => {
                warnings.push(Warning::BottomRadiusInvalid(next.min_sphere_radius));
            },
        }
        match args[i + 2].radius {
            Some(bits) => {
                next.max_sphere_radius = bits;
            },
            None => {
                warnings.push(Warning::TopRadiusInvalid(next.max_sphere_radius));
            },
        }
        let r = Parsed { data: next, warnings, help: false };
        assert(r@.warnings =~= radius_option(args@, i as int, data@).warnings);
        r
    } else if args.len() - i > 1 {
        match args[i + 1].radius {
            Some(bits) => {
                let mut data = data;
                data.min_sphere_radius = 0;
                data.max_sphere_radius = bits;
                settled(data)
            },
            None => {
                let current = data.max_sphere_radius;
                warned(data, Warning::TopRadiusInvalid(current))
            },
        }
    } else {
        let warning = Warning::RadiusMissing(data.min_sphere_radius, data.max_sphere_radius);
        warned(data, warning)
    }
}

/// Applies `-n` at place `i`.
fn take_empty_space(args: &Vec<Argument>, i: usize, data: GeneratorData) -> (r: Parsed)
    requires
        i < args.len(),
    ensures
        r@ == empty_space_option(args@, i as int, data@),
{
    if args.len() - i > 1 {
        match parse_unsigned(args[i + 1].text.as_str(), u32::MAX as u64) {
            Some(v) => {
                let mut data = data;
                data.empty_space = v as u32;
                settled(data)
            },
            None => {
                let current = data.empty_space;
                warned(data, Warning::EmptySpaceInvalid(current))
            },
        }
    } else {
        let current = data.empty_space;
        warned(data, Warning::EmptySpaceMissing(current))
    }
}

/// Applies `-q` at place `i`.
fn take_noise(args: &Vec<Argument>, i: usize, data: GeneratorData) -> (r: Parsed)
    requires
        i < args.len(),
    ensures
        r@ == noise_option(args@, i as int, data@),
{
    if args.len() - i > 1 {
        match parse_unsigned(args[i + 1].text.as_str(), u32::MAX as u64) {
            Some(v) => {
                let mut data = data;
                data.noise_span = v as u32;
                settled(data)
            },
            None => {
                let current = data.noise_span;
                warned(data, Warning::NoiseInvalid(current))
            },
        }
    } else {
        let current = data.noise_span;
        warned(data, Warning::NoiseMissing(current))
    }
}

/// Applies `-d` at place `i`.
fn take_dimensions(args: &Vec<Argument>, i: usize, data: GeneratorData) -> (r: Parsed)
    requires
        i < args.len(),
    ensures
        r@ == dimensions_option(args@, i as int, data@),
{
    if args.len() - i > 1 {
        let (dims, warning) = read_dimensions(args[i + 1].text.as_str(), data.pixel_dimensions);
        let mut next = data;
        next.pixel_dimensions = dims;
        match warning {
            Some(w) => warned(next, w),
            None => settled(next),
        }
    } else {
        let current = data.pixel_dimensions;
        warned(data, Warning::DimensionsMissing(current))
    }
}

/// Applies the argument at place `i` to the settings.
fn take_argument(args: &Vec<Argument>, i: usize, data: GeneratorData) -> (r: Parsed)
    requires
        i < args.len(),
    ensures
        r@ == argument_effect(args@, i as int, data@),
{
    match option_letter(args[i].text.as_str()) {
        Some('o') => take_name(args, i, data),
        Some('v') => take_variations(args, i, data),
        Some('i') => take_instances(args, i, data),
        Some('r') => take_radii(args, i, data),
        Some('n') => take_empty_space(args, i, data),
        Some('q') => take_noise(args, i, data),
        Some('d') => take_dimensions(args, i, data),
        Some('h') => Parsed { data, warnings: Vec::new(), help: true },
        _ => settled(data),
    }
}

/// Reads the arguments, beginning at the usual settings.
pub fn get_params_from_args(args: &Vec<Argument>) -> (parsed: Parsed)
    ensures
        parsed@ == reading(args@),
{
    let mut data = GeneratorData::default();
    let mut warnings: Vec<Warning> = Vec::new();
    let mut i: usize = 0;
    while i < args.len()
        invariant
            i <= args.len(),
            reading(args@) == reading_from(
                args@,
                i as int,
                Outcome { settings: data@, warnings: warnings@, help: false },
            ),
        decreases args.len() - i,
    {
        let ghost before = Outcome { settings: data@, warnings: warnings@, help: false };
        let Parsed { data: next, warnings: mut fresh, help } = take_argument(args, i, data);
        warnings.append(&mut fresh);
        data = next;
        let ghost after = Outcome { settings: data@, warnings: warnings@, help };
        assert(reading_from(args@, i as int, before) == reading_from(args@, i + 1, after));
        if help {
            return Parsed { data, warnings, help: true };
        }
        i += 1;
    }
    Parsed { data, warnings, help: false }
}

} // verus!
