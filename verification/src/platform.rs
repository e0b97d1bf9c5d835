//! What the test game takes from the platform's own crates: operation codes,
//! addresses, the bytes of a sprite, random bytes, and the game file itself.
//!
//! No function of this file is proved. Each hands on a value of an outside
//! crate, and its contract says what that crate's source shows.

use vstd::prelude::*;
use maikor_platform::mem::address;
use maikor_platform::models::{Byteable, Sprite};
use maikor_platform::ops;
use maikor_platform::registers;
use maikor_vm_file::{GameFile, GameFileHeader};
use nanorand::{Rng, WyRand};

verus! {

/// The size of the main code bank.
pub const MAIN_CODE_SIZE: usize = 9000;

/// The size of a code bank.
pub const CODE_BANK_SIZE: usize = 4200;

/// The size of an atlas bank.
pub const ATLAS_SIZE: usize = 4000;

/// The size of a bank of controller graphics.
pub const CONTROLLER_GRAPHICS_SIZE: usize = 88;

/// The header of a game file, field by field.
#[derive(Clone, Debug, PartialEq, Eq)]
pub struct GameHeader {
    pub id: String,
    pub build: u32,
    pub compiled_for_maikor_version: u16,
    pub min_maikor_version: u16,
    pub ram_bank_count: u8,
    pub name: String,
    pub version: String,
    pub author: String,
    pub code_bank_count: u8,
    pub atlas_bank_count: u8,
    pub controller_graphics_bank_count: u8,
}

/// The operation codes that the test program is written in.
#[derive(Clone, Copy, Debug)]
pub struct Opcodes {
    pub reti: u8,
    pub mem_cpy_addr_addr_byte: u8,
    pub cpy_reg_addr_byte: u8,
    pub cpy_addr_num_byte: u8,
    pub inc_addr_byte: u8,
    pub jmp_addr: u8,
    pub je_addr: u8,
    pub compare_reg_num_byte: u8,
}

/// The addresses that the test program names.
#[derive(Clone, Copy, Debug)]
pub struct Addresses {
    /// Where the machine reads the controller.
    pub input: u16,
    /// The first atlas.
    pub atlas1: u16,
    pub palettes: u16,
    pub sprite_table: u16,
    /// The byte that switches interrupts on and off.
    pub irq_control: u16,
    /// Where the machine jumps when the controller changes.
    pub irq_input: u16,
}

/// One entry of the sprite table, field by field.
#[derive(Clone, Copy, Debug)]
pub struct SpriteEntry {
    pub x: usize,
    pub y: usize,
    pub id: usize,
    pub flip_v: bool,
    pub flip_h: bool,
    pub palette: usize,
    pub large: bool,
    pub order: usize,
    pub half_alpha: bool,
    pub rotated: bool,
    pub atlas: usize,
    pub enabled: bool,
}

/// The platform's operation codes.
pub open spec fn platform_opcodes() -> Opcodes {
    Opcodes {
        reti: 0x05,
        mem_cpy_addr_addr_byte: 0x08,
        cpy_reg_addr_byte: 0x14,
        cpy_addr_num_byte: 0x1A,
        inc_addr_byte: 0x2E,
        jmp_addr: 0xB0,
        je_addr: 0xB2,
        compare_reg_num_byte: 0xC0,
    }
}

/// The platform's addresses.
pub open spec fn platform_addresses() -> Addresses {
    Addresses {
        input: 0x87F0,
        atlas1: 0x9811,
        palettes: 0xD691,
        sprite_table: 0xD751,
        irq_control: 0xFBE0,
        irq_input: 0x0200,
    }
}

/// The number of the register BH.
pub open spec fn platform_register_bh() -> u8 {
    2
}

/// Whether every field of the entry fits the bits that the table gives it:
/// eight for a coordinate and for the tile, two for palette, order and atlas.
pub open spec fn sprite_fits(sprite: SpriteEntry) -> bool {
    &&& sprite.x < 256
    &&& sprite.y < 256
    &&& sprite.id < 256
    &&& sprite.palette < 4
    &&& sprite.order < 4
    &&& sprite.atlas < 4
}

/// 1 for true, 0 for false.
pub open spec fn bit(flag: bool) -> int {
    if flag {
        1
    } else {
        0
    }
}

/// The five bytes of a sprite table entry: x, y, tile, then a byte of flags
/// (flip vertical 128, flip horizontal 64, half alpha 32, rotated 16,
/// enabled 1), then large 128 with order, atlas and palette packed below it.
pub open spec fn sprite_bytes_spec(sprite: SpriteEntry) -> Seq<u8> {
    seq![
        sprite.x as u8,
        sprite.y as u8,
        sprite.id as u8,
        (128 * bit(sprite.flip_v) + 64 * bit(sprite.flip_h) + 32 * bit(sprite.half_alpha) + 16
            * bit(sprite.rotated) + bit(sprite.enabled)) as u8,
        (128 * bit(sprite.large) + 32 * sprite.order + 8 * sprite.atlas + sprite.palette) as u8,
    ]
}

/// The constants of `maikor_platform::ops` that the test program uses, with
/// the values that module gives them.
#[verifier::external_body]
pub(crate) fn opcodes() -> (codes: Opcodes)
    ensures
        codes == platform_opcodes(),
{
    Opcodes {
        reti: ops::RETI,
        mem_cpy_addr_addr_byte: ops::MEM_CPY_ADDR_ADDR_BYTE,
        cpy_reg_addr_byte: ops::CPY_REG_ADDR_BYTE,
        cpy_addr_num_byte: ops::CPY_ADDR_NUM_BYTE,
        inc_addr_byte: ops::INC_ADDR_BYTE,
        jmp_addr: ops::JMP_ADDR,
        je_addr: ops::JE_ADDR,
        compare_reg_num_byte: ops::CMP_REG_NUM_BYTE,
    }
}

/// The constants of `maikor_platform::mem::address` that the test program
/// uses, with the values that module gives them.
#[verifier::external_body]
pub(crate) fn addresses() -> (places: Addresses)
    ensures
        places == platform_addresses(),
{
    Addresses {
        input: address::INPUT,
        atlas1: address::ATLAS1,
        palettes: address::PALETTES,
        sprite_table: address::SPRITE_TABLE,
        irq_control: address::IRQ_CONTROL,
        irq_input: address::interrupt::IRQ_INPUT,
    }
}

/// `maikor_platform::registers::id::BH`, which is 2.
#[verifier::external_body]
pub(crate) fn register_bh() -> (id: u8)
    ensures
        id == platform_register_bh(),
{
    registers::id::BH
}

/// `Sprite::new` and then `Byteable::to_bytes` on the sprite: the entry as
/// the five bytes of the sprite table. Stated for entries whose fields fit;
/// the outside code cuts wider ones down.
#[verifier::external_body]
pub(crate) fn sprite_bytes(sprite: SpriteEntry) -> (bytes: Vec<u8>)
    requires
        sprite_fits(sprite),
    ensures
        bytes@ == sprite_bytes_spec(sprite),
{
    Sprite::new(
        sprite.x,
        sprite.y,
        sprite.id,
        sprite.flip_v,
        sprite.flip_h,
        sprite.palette,
        sprite.large,
        sprite.order,
        sprite.half_alpha,
        sprite.rotated,
        sprite.atlas,
        sprite.enabled,
    ).to_bytes()
}

/// `nanorand::WyRand`, a random number generator. Nothing is known of the
/// numbers it gives.
#[verifier::external_type_specification]
#[verifier::external_body]
pub struct ExWyRand(WyRand);

/// `WyRand::new`: a generator seeded by the system.
#[verifier::external_body]
pub(crate) fn new_generator() -> (generator: WyRand) {
    WyRand::new()
}

/// `Rng::generate` for a `u8`: the generator's next byte, which may be any.
#[verifier::external_body]
pub(crate) fn random_byte(generator: &mut WyRand) -> (byte: u8) {
    generator.generate()
}

/// `maikor_vm_file::GameFile`: a game as the machine loads it.
#[verifier::external_type_specification]
#[verifier::external_body]
pub struct ExGameFile(GameFile);

/// Banks as sequences of bytes.
pub open spec fn bank_views<const N: usize>(banks: Seq<[u8; N]>) -> Seq<Seq<u8>> {
    Seq::new(banks.len(), |k: int| banks[k]@)
}

/// The game file that has the given header fields and banks.
pub uninterp spec fn game_file(
    id: Seq<char>,
    build: u32,
    compiled_for_maikor_version: u16,
    min_maikor_version: u16,
    ram_bank_count: u8,
    name: Seq<char>,
    version: Seq<char>,
    author: Seq<char>,
    code_bank_count: u8,
    atlas_bank_count: u8,
    controller_graphics_bank_count: u8,
    main_code: Seq<u8>,
    code_banks: Seq<Seq<u8>>,
    atlases: Seq<Seq<u8>>,
    controller_graphics: Seq<Seq<u8>>,
) -> GameFile;

/// `GameFile::new` on a header made by `GameFileHeader::new`. Both only
/// store what they are given, so the file is decided by the fields and the
/// banks.
#[verifier::external_body]
pub(crate) fn new_game_file(
    header: GameHeader,
    main_code: [u8; MAIN_CODE_SIZE],
    code_banks: Vec<[u8; CODE_BANK_SIZE]>,
    atlases: Vec<[u8; ATLAS_SIZE]>,
    controller_graphics: Vec<[u8; CONTROLLER_GRAPHICS_SIZE]>,
) -> (file: GameFile)
    ensures
        file == game_file(
            header.id@,
            header.build,
            header.compiled_for_maikor_version,
            header.min_maikor_version,
            header.ram_bank_count,
            header.name@,
            header.version@,
            header.author@,
            header.code_bank_count,
            header.atlas_bank_count,
            header.controller_graphics_bank_count,
            main_code@,
            bank_views(code_banks@),
            bank_views(atlases@),
            bank_views(controller_graphics@),
        ),
{
    let h = header;
    let made = GameFileHeader::new(
        h.id, h.build, h.compiled_for_maikor_version, h.min_maikor_version, h.ram_bank_count,
        h.name, h.version, h.author, h.code_bank_count, h.atlas_bank_count,
        h.controller_graphics_bank_count,
    );
    GameFile::new(made, main_code, code_banks, atlases, controller_graphics)
}

} // verus!
