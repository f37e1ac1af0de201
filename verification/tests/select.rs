use edge_led::{default_palette, select_color, MyColor};

#[test]
fn palette_holds_the_seven_demo_colors() {
    let p = default_palette();
    assert_eq!(p.len(), 7);
    assert_eq!(p[0], MyColor(12, 24, 12));
    assert_eq!(p[1], MyColor(48, 0, 0));
    assert_eq!(p[2], MyColor(0, 48, 0));
    assert_eq!(p[3], MyColor(0, 0, 48));
    assert_eq!(p[4], MyColor(24, 24, 0));
    assert_eq!(p[5], MyColor(24, 0, 24));
    assert_eq!(p[6], MyColor(0, 24, 24));
}

#[test]
fn index_zero_and_even_draw_gives_halved_first_entry() {
    let p = default_palette();
    let c = select_color(&p, 0, 0);
    assert_eq!(c, MyColor(6, 12, 6));
    assert_eq!(c, MyColor(12, 24, 12).half_brightness());
}

#[test]
fn odd_draw_keeps_full_brightness() {
    let p = default_palette();
    assert_eq!(select_color(&p, 1, 1), MyColor(48, 0, 0));
}

#[test]
fn index_draw_wraps_modulo_palette_length() {
    let p = default_palette();
    assert_eq!(select_color(&p, 7, 1), MyColor(12, 24, 12));
    assert_eq!(select_color(&p, 9, 1), MyColor(0, 48, 0));
    assert_eq!(select_color(&p, u32::MAX, 1), p[(u32::MAX as usize) % 7]);
}

#[test]
fn selection_is_always_a_palette_entry_or_its_halved_variant() {
    let p = default_palette();
    for draw_index in [0u32, 1, 2, 6, 7, 13, 100, 12345, u32::MAX] {
        for draw_half in [0u32, 1, 2, 3, u32::MAX] {
            let c = select_color(&p, draw_index, draw_half);
            let hit = p.iter().any(|e| c == *e || c == e.half_brightness());
            assert!(hit, "selector left the palette: {:?}", c);
        }
    }
}

#[test]
fn singleton_palette_always_selects_its_entry() {
    let p = vec![MyColor(10, 20, 30)];
    for draw_index in [0u32, 1, 2, 7, u32::MAX] {
        assert_eq!(select_color(&p, draw_index, 1), MyColor(10, 20, 30));
        assert_eq!(select_color(&p, draw_index, 0), MyColor(5, 10, 15));
    }
}
