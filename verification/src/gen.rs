//! The test game: a small program, one tile, a palette, one sprite and the
//! controller graphics, laid out as the banks of a game file.

use vstd::prelude::*;
use vstd::string::*;
use maikor_vm_file::GameFile;
use crate::platform::{
    addresses, bank_views, game_file, new_game_file, new_generator, opcodes, platform_addresses,
    platform_opcodes, platform_register_bh, random_byte, register_bh, sprite_bytes,
    sprite_bytes_spec, GameHeader, SpriteEntry, ATLAS_SIZE, CODE_BANK_SIZE,
    CONTROLLER_GRAPHICS_SIZE, MAIN_CODE_SIZE,
};

verus! {

/// The number of banks of controller graphics.
pub const CONTROLLER_BANKS: usize = 9;

/// Where the program's idle loop stands.
pub const LOOP_AT: usize = 50;

/// Where the handler of the input interrupt stands.
pub const HANDLER_AT: usize = 1000;

/// Where the palette stands in the main code bank, to be copied from there.
pub const PALETTE_AT: usize = 6000;

/// Where the sprite table stands in the main code bank.
pub const SPRITES_AT: usize = 6200;

/// Where the random tile data stands in the main code bank.
pub const NOISE_AT: usize = 7000;

/// The number of random bytes.
pub const NOISE_SIZE: usize = 200;

/// `base` with `data` written over it from index `at` on.
pub open spec fn placed(base: Seq<u8>, at: int, data: Seq<u8>) -> Seq<u8> {
    Seq::new(
        base.len(),
        |i: int|
            if at <= i < at + data.len() {
                data[i - at]
            } else {
                base[i]
            },
    )
}

/// `len` zero bytes.
pub open spec fn blank(len: nat) -> Seq<u8> {
    Seq::new(len, |i: int| 0u8)
}

/// The high byte of `x`, then the low byte.
pub open spec fn be_bytes(x: u16) -> Seq<u8> {
    seq![(x / 256) as u8, (x % 256) as u8]
}

/// The one tile of the atlas: a square outline, two pixels to a byte.
pub open spec fn tile() -> Seq<u8> {
    seq![
        17u8, 17, 17, 17, 17, 0, 0, 17, 17, 0, 0, 17, 17, 0, 0, 17, 17, 0, 0, 17, 17, 0, 0, 17, 17,
        0, 0, 17, 17, 0, 0, 17, 17, 17, 17, 17,
    ]
}

/// The atlas bank: the tile at its start, zero behind it.
pub open spec fn altas_image() -> Seq<u8> {
    placed(blank(ATLAS_SIZE as nat), 0, tile())
}

/// A bank of controller graphics: 16 and 0 in turn.
pub open spec fn controller_image() -> Seq<u8> {
    Seq::new(
        CONTROLLER_GRAPHICS_SIZE as nat,
        |i: int|
            if i % 2 == 0 {
                16u8
            } else {
                0u8
            },
    )
}

/// The program's start: it copies palette, tile data and sprite table from
/// the code bank to where the machine looks for them, switches the
/// interrupts on, and plays a sound.
pub open spec fn startup() -> Seq<u8> {
    let op = platform_opcodes();
    let at = platform_addresses();
    seq![
        op.mem_cpy_addr_addr_byte,
        be_bytes(at.palettes)[0],
        be_bytes(at.palettes)[1],
        0x17,
        0x70,
        48,
        op.mem_cpy_addr_addr_byte,
        be_bytes(at.atlas1)[0],
        be_bytes(at.atlas1)[1],
        0x1b,
        0x58,
        200,
        op.mem_cpy_addr_addr_byte,
        be_bytes(at.sprite_table)[0],
        be_bytes(at.sprite_table)[1],
        0x18,
        0x38,
        5,
        op.cpy_addr_num_byte,
        be_bytes(at.irq_control)[0],
        be_bytes(at.irq_control)[1],
        255,
        op.cpy_addr_num_byte,
        0x88,
        0x08,
        0x80,
        op.cpy_addr_num_byte,
        0x88,
        0x06,
        0x77,
        op.cpy_addr_num_byte,
        0x88,
        0x07,
        0xFF,
    ]
}

/// The idle loop: it moves the sprite one pixel to the right and jumps back
/// to itself.
pub open spec fn idle_loop() -> Seq<u8> {
    let op = platform_opcodes();
    seq![op.inc_addr_byte, 0xd7, 0x51, op.jmp_addr, 0, 50]
}

/// The entry of the input interrupt: a jump to the handler.
pub open spec fn input_vector() -> Seq<u8> {
    seq![platform_opcodes().jmp_addr, 0x03, 0xe8]
}

/// The handler of the input interrupt: it sets the sprite's row, and plays
/// a sound unless the controller reads zero.
pub open spec fn input_handler() -> Seq<u8> {
    let op = platform_opcodes();
    let at = platform_addresses();
    let bh = platform_register_bh();
    seq![
        op.cpy_addr_num_byte,
        0xd7,
        0x52,
        100,
        op.cpy_reg_addr_byte,
        bh,
        be_bytes(at.input)[0],
        be_bytes(at.input)[1],
        op.compare_reg_num_byte,
        bh,
        0,
        op.je_addr,
        4,
        10,
        op.cpy_addr_num_byte,
        0x87,
        0xf2,
        0x16,
        op.cpy_addr_num_byte,
        0x87,
        0xf3,
        0x40,
        op.cpy_addr_num_byte,
        0x87,
        0xf4,
        0x73,
        op.cpy_addr_num_byte,
        0x87,
        0xf5,
        0x0,
        op.cpy_addr_num_byte,
        0x87,
        0xf6,
        0xc3,
        op.reti,
    ]
}

/// The palette: sixteen colours of three bytes.
pub open spec fn palette_data() -> Seq<u8> {
    seq![
        230u8, 20, 20, 20, 230, 20, 20, 20, 230, 230, 230, 230, 60, 60, 150, 150, 60, 60, 60, 150,
        60, 180, 90, 150, 150, 180, 90, 90, 150, 180, 20, 140, 230, 230, 20, 140, 140, 230, 20,
        230, 230, 20, 140, 20, 20, 20, 20, 20,
    ]
}

/// The one sprite: the first tile of the first atlas, at 9, 9, enabled.
pub open spec fn test_sprite() -> SpriteEntry {
    SpriteEntry {
        x: 9,
        y: 9,
        id: 0,
        flip_v: false,
        flip_h: false,
        palette: 0,
        large: false,
        order: 0,
        half_alpha: false,
        rotated: false,
        atlas: 0,
        enabled: true,
    }
}

/// The main code bank with `noise` for its random bytes: zero but for the
/// idle loop, the interrupt's entry, the start of the program, the handler,
/// the palette, the sprite table and the noise.
pub open spec fn code_image(noise: Seq<u8>) -> Seq<u8> {
    let rom = placed(blank(MAIN_CODE_SIZE as nat), LOOP_AT as int, idle_loop());
    let rom = placed(rom, platform_addresses().irq_input as int, input_vector());
    let rom = placed(rom, 0, startup());
    let rom = placed(rom, HANDLER_AT as int, input_handler());
    let rom = placed(rom, PALETTE_AT as int, palette_data());
    let rom = placed(rom, SPRITES_AT as int, sprite_bytes_spec(test_sprite()));
    placed(rom, NOISE_AT as int, noise)
}

/// Writes `data` over `bank` from index `at` on.
fn place<const N: usize>(bank: &mut [u8; N], at: usize, data: &[u8])
    requires
        at + data@.len() <= N,
    ensures
        final(bank)@ == placed(old(bank)@, at as int, data@),
{
    let mut i: usize = 0;
    while i < data.len()
        invariant
            i <= data@.len(),
            at + data@.len() <= N,
            bank@ == placed(old(bank)@, at as int, data@.take(i as int)),
        decreases data@.len() - i,
    {
        bank[at + i] = data[i];
        i = i + 1;
        assert(bank@ =~= placed(old(bank)@, at as int, data@.take(i as int)));
    }
    assert(data@.take(i as int) =~= data@);
}

/// The high byte of `x`, then the low byte.
fn to_be_bytes(x: u16) -> (bytes: [u8; 2])
    ensures
        bytes@ == be_bytes(x),
{
    let bytes: [u8; 2] = [(x / 256) as u8, (x % 256) as u8];
    assert(bytes@ =~= be_bytes(x));
    bytes
}

/// The atlas bank of the test game.
pub fn altas() -> (bank: [u8; ATLAS_SIZE])
    ensures
        bank@ == altas_image(),
{
    let mut output = [0u8; ATLAS_SIZE];
    assert(output@ =~= blank(ATLAS_SIZE as nat));
    let bytes: [u8; 36] = [
        17, 17, 17, 17, 17, 0, 0, 17, 17, 0, 0, 17, 17, 0, 0, 17, 17, 0, 0, 17, 17, 0, 0, 17, 17,
        0, 0, 17, 17, 0, 0, 17, 17, 17, 17, 17,
    ];
    assert(bytes@ =~= tile());
    place(&mut output, 0, bytes.as_slice());
    output
}

/// The banks of controller graphics of the test game.
pub fn controller() -> (banks: Vec<[u8; CONTROLLER_GRAPHICS_SIZE]>)
    ensures
        banks@.len() == CONTROLLER_BANKS,
        forall|k: int| 0 <= k < banks@.len() ==> (#[trigger] banks@[k])@ == controller_image(),
{
    let bank: [u8; CONTROLLER_GRAPHICS_SIZE] = [
        16, 0, 16, 0, 16, 0, 16, 0, 16, 0, 16, 0, 16, 0, 16, 0, 16, 0, 16, 0, 16, 0, 16, 0, 16,
        0, 16, 0, 16, 0, 16, 0, 16, 0, 16, 0, 16, 0, 16, 0, 16, 0, 16, 0, 16, 0, 16, 0, 16, 0,
        16, 0, 16, 0, 16, 0, 16, 0, 16, 0, 16, 0, 16, 0, 16, 0, 16, 0, 16, 0, 16, 0, 16, 0, 16,
        0, 16, 0, 16, 0, 16, 0, 16, 0, 16, 0, 16, 0,
    ];
    assert(bank@ =~= controller_image());
    let mut banks: Vec<[u8; CONTROLLER_GRAPHICS_SIZE]> = Vec::new();
    let mut k: usize = 0;
    while k < CONTROLLER_BANKS
        invariant
            k <= CONTROLLER_BANKS,
            banks@.len() == k,
            bank@ == controller_image(),
            forall|j: int| 0 <= j < banks@.len() ==> (#[trigger] banks@[j])@ == controller_image(),
        decreases CONTROLLER_BANKS - k,
    {
        banks.push(bank);
        k = k + 1;
    }
    banks
}

/// The main code bank of the test game, with `noise` for its random bytes.
pub fn code_with(noise: &[u8; NOISE_SIZE]) -> (bank: [u8; MAIN_CODE_SIZE])
    ensures
        bank@ == code_image(noise@),
{
    let op = opcodes();
    let at = addresses();
    let bh = register_bh();
    let mut output = [0u8; MAIN_CODE_SIZE];
    assert(output@ =~= blank(MAIN_CODE_SIZE as nat));

    let palette = to_be_bytes(at.palettes);
    let atlas = to_be_bytes(at.atlas1);
    let sprite_table = to_be_bytes(at.sprite_table);
    let control = to_be_bytes(at.irq_control);
    let input = to_be_bytes(at.input);

    let ops: [u8; 34] = [
        op.mem_cpy_addr_addr_byte,
        palette[0],
        palette[1],
        0x17,
        0x70,
        48,
        op.mem_cpy_addr_addr_byte,
        atlas[0],
        atlas[1],
        0x1b,
        0x58,
        200,
        op.mem_cpy_addr_addr_byte,
        sprite_table[0],
        sprite_table[1],
        0x18,
        0x38,
        5,
        op.cpy_addr_num_byte,
        control[0],
        control[1],
        255,
        op.cpy_addr_num_byte,
        0x88,
        0x08,
        0x80,
        op.cpy_addr_num_byte,
        0x88,
        0x06,
        0x77,
        op.cpy_addr_num_byte,
        0x88,
        0x07,
        0xFF,
    ];
    assert(ops@ =~= startup());

    let idle: [u8; 6] = [op.inc_addr_byte, 0xd7, 0x51, op.jmp_addr, 0, 50];
    assert(idle@ =~= idle_loop());
    place(&mut output, LOOP_AT, idle.as_slice());

    let vector: [u8; 3] = [op.jmp_addr, 0x03, 0xe8];
    assert(vector@ =~= input_vector());
    place(&mut output, at.irq_input as usize, vector.as_slice());

    place(&mut output, 0, ops.as_slice());

    let input_bytes: [u8; 35] = [
        op.cpy_addr_num_byte,
        0xd7,
        0x52,
        100,
        op.cpy_reg_addr_byte,
        bh,
        input[0],
        input[1],
        op.compare_reg_num_byte,
        bh,
        0,
        op.je_addr,
        4,
        10,
        op.cpy_addr_num_byte,
        0x87,
        0xf2,
        0x16,
        op.cpy_addr_num_byte,
        0x87,
        0xf3,
        0x40,
        op.cpy_addr_num_byte,
        0x87,
        0xf4,
        0x73,
        op.cpy_addr_num_byte,
        0x87,
        0xf5,
        0x0,
        op.cpy_addr_num_byte,
        0x87,
        0xf6,
        0xc3,
        op.reti,
    ];
    assert(input_bytes@ =~= input_handler());
    place(&mut output, HANDLER_AT, input_bytes.as_slice());

    let palette_data: [u8; 48] = [
        230, 20, 20, 20, 230, 20, 20, 20, 230, 230, 230, 230, 60, 60, 150, 150, 60, 60, 60, 150,
        60, 180, 90, 150, 150, 180, 90, 90, 150, 180, 20, 140, 230, 230, 20, 140, 140, 230, 20,
        230, 230, 20, 140, 20, 20, 20, 20, 20,
    ];
    assert(palette_data@ =~= self::palette_data());
    place(&mut output, PALETTE_AT, palette_data.as_slice());

    let sprite1 = sprite_bytes(
        SpriteEntry {
            x: 9,
            y: 9,
            id: 0,
            flip_v: false,
            flip_h: false,
            palette: 0,
            large: false,
            order: 0,
            half_alpha: false,
            rotated: false,
            atlas: 0,
            enabled: true,
        },
    );
    place(&mut output, SPRITES_AT, sprite1.as_slice());

    place(&mut output, NOISE_AT, noise.as_slice());
    output
}

/// The main code bank of the test game. Its tile data is random: the bank is
/// the image of some noise.
pub fn code() -> (bank: [u8; MAIN_CODE_SIZE])
    ensures
        exists|noise: Seq<u8>| noise.len() == NOISE_SIZE && bank@ == code_image(noise),
{
    let mut generator = new_generator();
    let mut noise = [0u8; NOISE_SIZE];
    let mut i: usize = 0;
    while i < NOISE_SIZE
        invariant
            i <= NOISE_SIZE,
        decreases NOISE_SIZE - i,
    {
        noise[i] = random_byte(&mut generator);
        i = i + 1;
    }
    code_with(&noise)
}

/// The banks of controller graphics of the test game.
pub open spec fn controller_banks() -> Seq<Seq<u8>> {
    Seq::new(CONTROLLER_BANKS as nat, |k: int| controller_image())
}

/// The test game as a game file: two ram banks asked for, no code bank but
/// the main one, one atlas, and the controller graphics.
pub fn game() -> (file: GameFile)
    ensures
        exists|noise: Seq<u8>|
            noise.len() == NOISE_SIZE && file == #[trigger] game_file(
                "test"@,
                1,
                1,
                1,
                2,
                "test"@,
                "v1"@,
                "Ray"@,
                0,
                1,
                9,
                code_image(noise),
                Seq::empty(),
                seq![altas_image()],
                controller_banks(),
            ),
{
    let header = GameHeader {
        id: String::from_str("test"),
        build: 1,
        compiled_for_maikor_version: 1,
        min_maikor_version: 1,
        ram_bank_count: 2,
        name: String::from_str("test"),
        version: String::from_str("v1"),
        author: String::from_str("Ray"),
        code_bank_count: 0,
        atlas_bank_count: 1,
        controller_graphics_bank_count: 9,
    };
    let main_code = code();
    let code_banks: Vec<[u8; CODE_BANK_SIZE]> = Vec::new();
    let mut atlases: Vec<[u8; ATLAS_SIZE]> = Vec::new();
    atlases.push(altas());
    let controller_graphics = controller();
    proof {
        assert(bank_views(code_banks@) =~= Seq::<Seq<u8>>::empty());
        assert(bank_views(atlases@) =~= seq![altas_image()]);
        assert(bank_views(controller_graphics@) =~= controller_banks());
    }
    new_game_file(header, main_code, code_banks, atlases, controller_graphics)
}

} // verus!
