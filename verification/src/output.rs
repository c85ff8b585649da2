//! The two files that a volume is stored as: their names and their bytes.
//!
//! Both files hold the voxels in the order of the arrays: densities as one
//! byte each, materials as four bytes each, the most significant byte first.

use crate::classifier::saturated;
use crate::config::{GeneratorData, Settings};
use crate::numeral::{chars_of, decimal_text, push_decimal, push_signed, signed_text};
use byteorder::{BigEndian, ByteOrder};
use vstd::prelude::*;

verus! {

/// The four bytes of `n` in two's complement, the most significant first.
pub open spec fn be_bytes(n: i32) -> Seq<u8> {
    let u: int = if n >= 0 {
        n as int
    } else {
        n + 0x1_0000_0000
    };
    seq![
        (u / 0x100_0000) as u8,
        (u / 0x1_0000 % 0x100) as u8,
        (u / 0x100 % 0x100) as u8,
        (u % 0x100) as u8,
    ]
}

/// The material stream of a texture: the four bytes of each material, one
/// material after the other.
pub open spec fn segmentation_stream(texture: Seq<i32>) -> Seq<u8> {
    Seq::new(4 * texture.len(), |k: int| be_bytes(texture[k / 4])[k % 4])
}

/// The density stream of a texture: each density as one byte, a density above
/// the largest as the largest.
pub open spec fn raw_stream(texture: Seq<u32>) -> Seq<u8> {
    Seq::new(texture.len(), |k: int| saturated(texture[k] as i64) as u8)
}

/// Calls `byteorder::BigEndian::write_i32` on a buffer of four bytes. The
/// contract claims that the buffer then holds the four bytes of `n` in two's
/// complement, the most significant first.
#[verifier::external_body]
fn big_endian(n: i32) -> (bytes: [u8; 4])
    ensures
        bytes@ == be_bytes(n),
{
    let mut bytes = [0u8; 4];
    BigEndian::write_i32(&mut bytes, n);
    bytes
}

/// The material stream of a texture.
pub fn segmentation_bytes(texture: &Vec<i32>) -> (bytes: Vec<u8>)
    ensures
        bytes@ == segmentation_stream(texture@),
{
    let mut bytes: Vec<u8> = Vec::new();
    let mut i: usize = 0;
    while i < texture.len()
        invariant
            i <= texture.len(),
            bytes@ =~= segmentation_stream(texture@.take(i as int)),
        decreases texture.len() - i,
    {
        let word = big_endian(texture[i]);
        bytes.push(word[0]);
        bytes.push(word[1]);
        bytes.push(word[2]);
        bytes.push(word[3]);
        i += 1;
    }
    bytes
}

/// The density stream of a texture.
pub fn raw_bytes(texture: &Vec<u32>) -> (bytes: Vec<u8>)
    ensures
        bytes@ == raw_stream(texture@),
{
    let mut bytes: Vec<u8> = Vec::new();
    let mut i: usize = 0;
    while i < texture.len()
        invariant
            i <= texture.len(),
            bytes@ =~= raw_stream(texture@.take(i as int)),
        decreases texture.len() - i,
    {
        let density = texture[i];
        if density > 255 {
            bytes.push(255);
        } else {
            bytes.push(density as u8);
        }
        i += 1;
    }
    bytes
}

/// What the name of a file of the volume ends on: `.raw` for the densities.
pub open spec fn raw_ending() -> Seq<char> {
    seq!['.', 'r', 'a', 'w']
}

/// What the name of a file of the volume ends on: `.sgm` for the materials.
pub open spec fn segmentation_ending() -> Seq<char> {
    seq!['.', 's', 'g', 'm']
}

/// The name of a file of the volume of the given variation: the name of the
/// run, the number of the variation, the number of spheres behind an `i`, and
/// the three sizes of the grid with an `x` between them, as in
/// `untitled_0_i100_256x256x256.raw`.
pub open spec fn file_name(settings: Settings, variation: u32, ending: Seq<char>) -> Seq<char> {
    settings.generation_name + seq!['_'] + decimal_text(variation as nat) + seq!['_', 'i']
        + signed_text(settings.sphere_count as int) + seq!['_'] + decimal_text(
        settings.pixel_dimensions.x as nat,
    ) + seq!['x'] + decimal_text(settings.pixel_dimensions.y as nat) + seq!['x'] + decimal_text(
        settings.pixel_dimensions.z as nat,
    ) + ending
}

/// Calls `String::from_iter` on the characters. The contract claims that the
/// string holds these characters in this order.
#[verifier::external_body]
fn text_of(chars: &Vec<char>) -> (text: String)
    ensures
        text@ == chars@,
{
    String::from_iter(chars.iter())
}

/// The name of a file of the volume without its ending.
fn file_stem(gen_data: &GeneratorData, variation: u32) -> (stem: Vec<char>)
    ensures
        stem@ + raw_ending() == file_name(gen_data@, variation, raw_ending()),
        stem@ + segmentation_ending() == file_name(gen_data@, variation, segmentation_ending()),
{
    let mut stem = chars_of(gen_data.generation_name.as_str());
    stem.push('_');
    push_decimal(&mut stem, variation as u64);
    stem.push('_');
    stem.push('i');
    push_signed(&mut stem, gen_data.sphere_count as i64);
    stem.push('_');
    push_decimal(&mut stem, gen_data.pixel_dimensions.x as u64);
    stem.push('x');
    push_decimal(&mut stem, gen_data.pixel_dimensions.y as u64);
    stem.push('x');
    push_decimal(&mut stem, gen_data.pixel_dimensions.z as u64);
    stem
}

/// The name of the file that holds the densities of the given variation.
pub fn volume_file_name(gen_data: &GeneratorData, variation: u32) -> (name: String)
    ensures
        name@ == file_name(gen_data@, variation, raw_ending()),
{
    let mut name = file_stem(gen_data, variation);
    name.push('.');
    name.push('r');
    name.push('a');
    name.push('w');
    text_of(&name)
}

/// The name of the file that holds the materials of the given variation.
pub fn material_file_name(gen_data: &GeneratorData, variation: u32) -> (name: String)
    ensures
        name@ == file_name(gen_data@, variation, segmentation_ending()),
{
    let mut name = file_stem(gen_data, variation);
    name.push('.');
    name.push('s');
    name.push('g');
    name.push('m');
    text_of(&name)
}

} // verus!
