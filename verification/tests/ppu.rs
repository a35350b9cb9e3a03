use fc_emu::mapper::mapper0::Mapper0;
use fc_emu::ppu::{Ppu, FRAMEBUFFER_SIZE, HEIGHT, NES_PALETTE, WIDTH};
use fc_emu::rom::Mirroring;

#[test]
fn status_read_clears_vblank_and_latch() {
    let mut ppu = Ppu::new(Mirroring::Horizontal);
    let mapper = Mapper0::new(vec![0; 0x8000], vec![0; 0x2000], true);
    ppu.registers[2] = 0x80;
    assert_eq!(ppu.cpu_read_register(0x2002, &mapper), 0x80);
    assert_eq!(ppu.registers[2] & 0x80, 0);
}

#[test]
fn palette_mirrors_universal_background_entries() {
    assert_eq!(Ppu::palette_index(0x3f10), Ppu::palette_index(0x3f00));
}

#[test]
fn raises_frame_ready_at_vblank() {
    let mut ppu = Ppu::new(Mirroring::Horizontal);
    let mapper = Mapper0::new(vec![0; 0x8000], vec![0; 0x2000], true);
    ppu.step(341 * 241, &mapper);
    assert!(ppu.frame_ready());
    assert_eq!(ppu.take_frame().len(), FRAMEBUFFER_SIZE);
    assert!(!ppu.frame_ready());
}

#[test]
fn address_latch_sets_ppuaddr_and_increments_ppudata() {
    let mut ppu = Ppu::new(Mirroring::Horizontal);
    let mut mapper = Mapper0::new(vec![0; 0x8000], vec![0; 0x2000], false);

    ppu.cpu_write_register(0x2006, 0x20, &mut mapper);
    ppu.cpu_write_register(0x2006, 0x00, &mut mapper);
    ppu.cpu_write_register(0x2007, 0x2a, &mut mapper);

    assert_eq!(ppu.vram[0], 0x2a);
    assert_eq!(ppu.vram_addr, 0x2001);
}

#[test]
fn vertical_and_horizontal_nametable_mirroring_differ() {
    let vertical = Ppu::new(Mirroring::Vertical);
    let horizontal = Ppu::new(Mirroring::Horizontal);

    assert_eq!(
        vertical.nametable_index(0x2000),
        vertical.nametable_index(0x2800)
    );
    assert_eq!(
        horizontal.nametable_index(0x2000),
        horizontal.nametable_index(0x2400)
    );
    assert_ne!(
        horizontal.nametable_index(0x2000),
        horizontal.nametable_index(0x2800)
    );
}

#[test]
fn renders_background_tile_from_chr_and_palette() {
    let mut chr = vec![0; 0x2000];
    chr[16] = 0xff;
    let mapper = Mapper0::new(vec![0; 0x8000], chr, true);
    let mut ppu = Ppu::new(Mirroring::Horizontal);
    ppu.registers[1] = 0x0a;
    ppu.vram[0] = 1;
    ppu.palette[0] = 0x0f;
    ppu.palette[1] = 0x21;

    ppu.render_frame(&mapper);

    assert_eq!(&ppu.frame_buffer()[0..4], &NES_PALETTE[0x21]);
}

#[test]
fn background_left_edge_mask_preserves_universal_background_color() {
    let mut chr = vec![0; 0x2000];
    chr[16] = 0xff;
    let mapper = Mapper0::new(vec![0; 0x8000], chr, true);
    let mut ppu = Ppu::new(Mirroring::Horizontal);
    ppu.registers[1] = 0x08;
    ppu.vram[0] = 1;
    ppu.vram[1] = 1;
    ppu.palette[0] = 0x0f;
    ppu.palette[1] = 0x21;

    ppu.render_frame(&mapper);

    assert_eq!(&ppu.frame_buffer()[0..4], &NES_PALETTE[0x0f]);
    assert_eq!(&ppu.frame_buffer()[8 * 4..9 * 4], &NES_PALETTE[0x21]);
}

#[test]
fn ppuscroll_latch_records_x_and_y_scroll() {
    let mut ppu = Ppu::new(Mirroring::Horizontal);
    let mut mapper = Mapper0::new(vec![0; 0x8000], vec![0; 0x2000], true);

    ppu.cpu_write_register(0x2005, 12, &mut mapper);
    ppu.cpu_write_register(0x2005, 34, &mut mapper);

    assert_eq!(ppu.scroll_x, 12);
    assert_eq!(ppu.scroll_y, 34);
    assert!(!ppu.address_latch);
}

#[test]
fn ppuctrl_nametable_bits_feed_scroll_address() {
    let mut ppu = Ppu::new(Mirroring::Horizontal);
    let mut mapper = Mapper0::new(vec![0; 0x8000], vec![0; 0x2000], true);

    ppu.cpu_write_register(0x2000, 0x03, &mut mapper);
    ppu.cpu_write_register(0x2005, 5, &mut mapper);
    ppu.cpu_write_register(0x2005, 6, &mut mapper);

    assert_eq!(ppu.scroll_x, WIDTH as u16 + 5);
    assert_eq!(ppu.scroll_y, HEIGHT as u16 + 6);
    assert_eq!(ppu.temp_addr & 0x0c00, 0x0c00);
}

#[test]
fn background_scroll_samples_next_horizontal_nametable() {
    let mut chr = vec![0; 0x2000];
    chr[16] = 0xff;
    chr[32 + 8] = 0xff;
    let mapper = Mapper0::new(vec![0; 0x8000], chr, true);
    let mut ppu = Ppu::new(Mirroring::Vertical);
    ppu.registers[1] = 0x0a;
    let first = ppu.nametable_index(0x2000);
    ppu.vram[first] = 1;
    let second = ppu.nametable_index(0x2400);
    ppu.vram[second] = 2;
    ppu.palette[1] = 0x21;
    ppu.palette[2] = 0x16;

    ppu.render_frame(&mapper);
    assert_eq!(&ppu.frame_buffer()[0..4], &NES_PALETTE[0x21]);

    ppu.scroll_x = 256;
    ppu.render_frame(&mapper);
    assert_eq!(&ppu.frame_buffer()[0..4], &NES_PALETTE[0x16]);
}

#[test]
fn renders_nontransparent_sprite_pixels() {
    let mut chr = vec![0; 0x2000];
    chr[16] = 0xff;
    let mapper = Mapper0::new(vec![0; 0x8000], chr, true);
    let mut ppu = Ppu::new(Mirroring::Horizontal);
    ppu.registers[1] = 0x14;
    ppu.palette[0] = 0x0f;
    ppu.palette[0x11] = 0x27;
    ppu.oam[0] = 0;
    ppu.oam[1] = 1;
    ppu.oam[2] = 0;
    ppu.oam[3] = 4;

    ppu.render_frame(&mapper);

    let i = (WIDTH + 4) * 4;
    assert_eq!(&ppu.frame_buffer()[i..i + 4], &NES_PALETTE[0x27]);
}

#[test]
fn sprite_left_edge_mask_skips_leftmost_pixels() {
    let mut chr = vec![0; 0x2000];
    chr[16] = 0xff;
    let mapper = Mapper0::new(vec![0; 0x8000], chr, true);
    let mut ppu = Ppu::new(Mirroring::Horizontal);
    ppu.registers[1] = 0x10;
    ppu.palette[0] = 0x0f;
    ppu.palette[0x11] = 0x27;
    ppu.oam[0] = 0;
    ppu.oam[1] = 1;
    ppu.oam[2] = 0;
    ppu.oam[3] = 0;

    ppu.render_frame(&mapper);

    let left = WIDTH * 4;
    assert_eq!(&ppu.frame_buffer()[left..left + 4], &NES_PALETTE[0x0f]);

    ppu.registers[1] = 0x14;
    ppu.render_frame(&mapper);
    assert_eq!(&ppu.frame_buffer()[left..left + 4], &NES_PALETTE[0x27]);
}

#[test]
fn renders_8x16_sprite_from_adjacent_tiles() {
    let mut chr = vec![0; 0x2000];
    chr[2 * 16] = 0xff;
    chr[3 * 16] = 0xff;
    let mapper = Mapper0::new(vec![0; 0x8000], chr, true);
    let mut ppu = Ppu::new(Mirroring::Horizontal);
    ppu.registers[0] = 0x20;
    ppu.registers[1] = 0x14;
    ppu.palette[0x11] = 0x27;
    ppu.oam[0] = 0;
    ppu.oam[1] = 2;
    ppu.oam[2] = 0;
    ppu.oam[3] = 4;

    ppu.render_frame(&mapper);

    let top = (WIDTH + 4) * 4;
    let bottom = (9 * WIDTH + 4) * 4;
    assert_eq!(&ppu.frame_buffer()[top..top + 4], &NES_PALETTE[0x27]);
    assert_eq!(&ppu.frame_buffer()[bottom..bottom + 4], &NES_PALETTE[0x27]);
}

#[test]
fn sprite_zero_hit_sets_status_when_background_overlaps() {
    let mut chr = vec![0; 0x2000];
    chr[16] = 0xff;
    chr[17] = 0xff;
    let mapper = Mapper0::new(vec![0; 0x8000], chr, true);
    let mut ppu = Ppu::new(Mirroring::Horizontal);
    ppu.registers[1] = 0x1e;
    ppu.vram[0] = 1;
    ppu.palette[1] = 0x21;
    ppu.palette[0x11] = 0x27;
    ppu.oam[0] = 0;
    ppu.oam[1] = 1;
    ppu.oam[2] = 0;
    ppu.oam[3] = 0;

    ppu.render_frame(&mapper);

    assert_ne!(ppu.registers[2] & 0x40, 0);
}

#[test]
fn sprite_zero_hit_is_set_during_visible_scanline() {
    let mut chr = vec![0; 0x2000];
    chr[16] = 0xff;
    chr[17] = 0xff;
    let mapper = Mapper0::new(vec![0; 0x8000], chr, true);
    let mut ppu = Ppu::new(Mirroring::Horizontal);
    ppu.registers[1] = 0x1e;
    ppu.vram[0] = 1;
    ppu.oam[0] = 0;
    ppu.oam[1] = 1;
    ppu.oam[2] = 0;
    ppu.oam[3] = 0;

    ppu.step(342, &mapper);

    assert_ne!(ppu.registers[2] & 0x40, 0);
}

#[test]
fn sprite_zero_hit_fallback_sets_status_for_visible_sprite_pixel() {
    let mut chr = vec![0; 0x2000];
    chr[0xff * 16 + 5] = 0x7c;
    chr[0xff * 16 + 8 + 5] = 0x04;
    let mapper = Mapper0::new(vec![0; 0x8000], chr, true);
    let mut ppu = Ppu::new(Mirroring::Horizontal);
    ppu.registers[1] = 0x1e;
    ppu.oam[0] = 0x18;
    ppu.oam[1] = 0xff;
    ppu.oam[2] = 0x23;
    ppu.oam[3] = 0x58;

    ppu.step(341 * 31, &mapper);

    assert_ne!(ppu.registers[2] & 0x40, 0);
}

#[test]
fn sprite_priority_keeps_opaque_background_in_front() {
    let mut chr = vec![0; 0x2000];
    chr[16] = 0xff;
    chr[17] = 0xff;
    let mapper = Mapper0::new(vec![0; 0x8000], chr, true);
    let mut ppu = Ppu::new(Mirroring::Horizontal);
    ppu.registers[1] = 0x1e;
    ppu.vram[0] = 1;
    ppu.palette[1] = 0x21;
    ppu.palette[0x11] = 0x27;
    ppu.oam[0] = 0;
    ppu.oam[1] = 1;
    ppu.oam[2] = 0x20;
    ppu.oam[3] = 0;

    ppu.render_frame(&mapper);

    let i = WIDTH * 4;
    assert_eq!(&ppu.frame_buffer()[i..i + 4], &NES_PALETTE[0x21]);
}

#[test]
fn snapshot_restore_gives_back_the_picture_unit() {
    let mut ppu = Ppu::new(Mirroring::Vertical);
    let mut mapper = Mapper0::new(vec![0; 0x8000], vec![0; 0x2000], false);
    ppu.cpu_write_register(0x2006, 0x21, &mut mapper);
    ppu.cpu_write_register(0x2006, 0x05, &mut mapper);
    ppu.cpu_write_register(0x2007, 0x77, &mut mapper);
    ppu.oam[9] = 3;
    let saved = ppu.snapshot();

    let mut other = Ppu::new(Mirroring::Vertical);
    other.restore(&saved);
    assert_eq!(other.snapshot(), saved);
    assert_eq!(other.vram[ppu.nametable_index(0x2105)], 0x77);
    assert_eq!(other.oam[9], 3);
}

#[test]
fn ppudata_reads_back_a_written_byte_after_the_buffered_read() {
    let mut ppu = Ppu::new(Mirroring::Horizontal);
    let mut mapper = Mapper0::new(vec![0; 0x8000], vec![0; 0x2000], false);
    ppu.cpu_write_register(0x2006, 0x23, &mut mapper);
    ppu.cpu_write_register(0x2006, 0x00, &mut mapper);
    ppu.cpu_write_register(0x2007, 0x5c, &mut mapper);
    ppu.cpu_write_register(0x2006, 0x23, &mut mapper);
    ppu.cpu_write_register(0x2006, 0x00, &mut mapper);
    let _buffered = ppu.cpu_read_register(0x2007, &mapper);
    ppu.cpu_write_register(0x2006, 0x23, &mut mapper);
    ppu.cpu_write_register(0x2006, 0x00, &mut mapper);
    assert_eq!(ppu.cpu_read_register(0x2007, &mapper), 0x5c);
}

#[test]
fn palette_entries_repeat_every_32_bytes() {
    assert_eq!(Ppu::palette_index(0x3f01), 1);
    assert_eq!(Ppu::palette_index(0x3f21), 1);
    assert_eq!(Ppu::palette_index(0x3f14), Ppu::palette_index(0x3f04));
    assert_eq!(Ppu::palette_index(0x3f1c), Ppu::palette_index(0x3f0c));
    assert_ne!(Ppu::palette_index(0x3f11), Ppu::palette_index(0x3f01));
}

#[test]
fn nametables_fold_into_two_kib() {
    let horizontal = Ppu::new(Mirroring::Horizontal);
    assert_eq!(horizontal.nametable_index(0x2000), 0);
    assert_eq!(horizontal.nametable_index(0x2800), 0x400);
    assert_eq!(horizontal.nametable_index(0x3000), 0);
    let vertical = Ppu::new(Mirroring::Vertical);
    assert_eq!(vertical.nametable_index(0x2400), 0x400);
    assert_eq!(vertical.nametable_index(0x2c05), 0x405);
}

#[test]
fn dots_move_the_beam_and_wrap_at_the_frame_end() {
    let mut ppu = Ppu::new(Mirroring::Horizontal);
    let mapper = Mapper0::new(vec![0; 0x8000], vec![0; 0x2000], true);
    ppu.oam[5] = 9;
    ppu.step(341 * 10 + 7, &mapper);
    assert_eq!((ppu.scanline, ppu.dot), (10, 7));
    ppu.step(262 * 341, &mapper);
    assert_eq!((ppu.scanline, ppu.dot), (10, 7));
    ppu.step(341 * 252 - 7, &mapper);
    assert_eq!((ppu.scanline, ppu.dot), (0, 0));
    assert_eq!(ppu.oam[5], 9);
}
