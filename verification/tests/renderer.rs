use toznyauth_pam::matrix::BitMatrix;
use toznyauth_pam::qr_term::block;
use toznyauth_pam::qr_term::glyph;
use toznyauth_pam::qr_term::horiz_border;
use toznyauth_pam::qr_term::join_lines;
use toznyauth_pam::qr_term::output_ascii;
use toznyauth_pam::qr_term::output_unicode;

const BLACK: &str = "\x1B[40m  \x1B[0m";
const WHITE: &str = "\x1B[47m  \x1B[0m";
const FG_BG: &str = "\x1B[30m\x1B[47m";
const RESET: &str = "\x1B[0m";

fn matrix(side: usize, bits: &[bool]) -> BitMatrix {
    BitMatrix::new(side, bits.to_vec())
}

fn border(side: usize, pad: &str, unit: &str) -> String {
    let mut s = String::new();
    s.push_str(pad);
    s.push_str(FG_BG);
    for _ in 0..side + 2 {
        s.push_str(unit);
    }
    s.push_str(RESET);
    s.push_str("\n");
    s
}

#[test]
fn glyph_table_is_exhaustive() {
    assert_eq!(glyph((false, false)), " ");
    assert_eq!(glyph((false, true)), "\u{2584}");
    assert_eq!(glyph((true, false)), "\u{2580}");
    assert_eq!(glyph((true, true)), "\u{2588}");
}

#[test]
fn block_reads_vertical_pairs() {
    // 2 x 2 grid: (0,0) set, (0,1) clear, (1,0) clear, (1,1) set.
    let m = matrix(2, &[true, false, false, true]);
    assert_eq!(block(&m, 0, 0), (true, false));
    assert_eq!(block(&m, 1, 0), (false, true));
    // Last row of an odd-sided grid gets a clear partner.
    let m3 = matrix(1, &[true]);
    assert_eq!(block(&m3, 0, 0), (true, false));
}

#[test]
fn horiz_border_repeats_unit_across_full_width() {
    assert_eq!(horiz_border(3, "  ", "\u{2580}"), border(3, "  ", "\u{2580}"));
    assert_eq!(horiz_border(0, "", WHITE), border(0, "", WHITE));
}

#[test]
fn ascii_output_has_bordered_rows_of_uniform_width() {
    let m = matrix(2, &[true, false, false, true]);
    let lines = output_ascii(&m, ">>");
    assert_eq!(lines.len(), 4);
    assert_eq!(lines[0], border(2, ">>", WHITE));
    assert_eq!(lines[3], border(2, ">>", WHITE));
    assert_eq!(lines[1], format!(">>{}{}{}{}\n", WHITE, BLACK, WHITE, WHITE));
    assert_eq!(lines[2], format!(">>{}{}{}{}\n", WHITE, WHITE, BLACK, WHITE));
    // Every row renders side + 2 = 4 two-character blocks.
    for line in &lines {
        let two_space_blocks = line.matches("  ").count();
        assert_eq!(two_space_blocks, 4);
    }
}

#[test]
fn unicode_output_odd_side_has_no_bottom_border() {
    let m = matrix(3, &[true, false, true, false, true, false, true, false, true]);
    let lines = output_unicode(&m, "");
    // ceil(3 / 2) + 1 = 3 rendered rows, top border included.
    assert_eq!(lines.len(), 3);
    assert_eq!(lines[0], border(3, "", "\u{2580}"));
    // Row packing (upper, lower) per column, border columns blank:
    // rows 0-1: (set, clear) (clear, set) (set, clear)
    assert_eq!(
        lines[1],
        format!("{} \u{2580}\u{2584}\u{2580} {}\n", FG_BG, RESET)
    );
    // row 2 paired with a clear partner: (set, clear) (clear, clear) (set, clear)
    assert_eq!(
        lines[2],
        format!("{} \u{2580} \u{2580} {}\n", FG_BG, RESET)
    );
}

#[test]
fn unicode_output_even_side_has_both_borders() {
    let m = matrix(2, &[true, false, false, true]);
    let lines = output_unicode(&m, "..");
    // 2 / 2 + 2 = 3 lines: top border, one packed row, bottom border.
    assert_eq!(lines.len(), 3);
    assert_eq!(lines[0], border(2, "..", "\u{2580}"));
    assert_eq!(
        lines[1],
        format!("..{} \u{2580}\u{2584} {}\n", FG_BG, RESET)
    );
    assert_eq!(lines[2], border(2, "..", "\u{2584}"));
}

#[test]
fn join_lines_concatenates_in_order() {
    let lines = vec!["ab\n".to_string(), "cd\n".to_string(), "".to_string(), "e".to_string()];
    assert_eq!(join_lines(&lines), "ab\ncd\ne");
}
