use click::number::BigNumber;
use click::table::{fill_line, NumberVariant, Point, PointsToString};
use ratatui::style::Color;

fn rows(text: &str) -> Vec<String> {
    let color = Color::White;
    let num = BigNumber::new(text, &color);
    (0u8..5).map(|line| num.draw_line(line)).collect()
}

#[test]
fn text_width() {
    let color = Color::White;
    let num = BigNumber::new("123", &color);
    let len = "123".len();

    let smart = num.width();

    let mut stupid = 0;
    (0..len).for_each(|i| stupid += i * 6 + 1);

    assert_eq!(smart, 21);
    assert_eq!(stupid, 21);
}

#[test]
fn buffer_lines() {
    let color = Color::White;
    let num = BigNumber::new("124", &color);

    assert_eq!(num.draw_line(0).trim_start(), "██ ██████ ██  ██ ");
    assert_eq!(num.draw_line(1).trim_start(), "██     ██ ██  ██ ");
    assert_eq!(num.draw_line(2).trim_start(), "██ ██████ ██████ ");
    assert_eq!(num.draw_line(3).trim_start(), "██ ██         ██ ");
    assert_eq!(num.draw_line(4).trim_start(), "██ ██████     ██ ");
}

#[test]
fn width_is_seven_cells_per_character() {
    let color = Color::White;
    assert_eq!(BigNumber::new("", &color).width(), 0);
    assert_eq!(BigNumber::new("8", &color).width(), 7);
    assert_eq!(BigNumber::new("12:34:56", &color).width(), 56);
}

#[test]
fn letters_are_stripped_before_measuring() {
    let color = Color::White;
    assert_eq!(BigNumber::new("12AM", &color).width(), 14);
    assert_eq!(BigNumber::new("01:05:09 [PM]", &color).width(), 77);
    assert_eq!(rows("1a2b"), rows("12"));
}

#[test]
fn colon_takes_back_the_separator() {
    let r = rows("1:2");
    assert_eq!(r[0], "    ██      ██████ ");
    assert_eq!(r[1], "    ██  ██      ██ ");
    assert_eq!(r[2], "    ██      ██████ ");
    assert_eq!(r[3], "    ██  ██  ██     ");
    assert_eq!(r[4], "    ██      ██████ ");
    for line in &r {
        assert_eq!(line.chars().count(), 19);
    }
}

#[test]
fn leading_colon_removes_nothing() {
    let r = rows(":1");
    assert_eq!(r[0], "          ██ ");
    assert_eq!(r[1], "  ██      ██ ");
    assert_eq!(r[3], "  ██      ██ ");
}

#[test]
fn two_colons_each_take_a_cell() {
    let r = rows("1::2");
    assert_eq!(r[1], "    ██  ██   ██      ██ ");
    assert_eq!(r[1].chars().count(), 24);
}

#[test]
fn unknown_characters_draw_nothing() {
    assert_eq!(rows("1-2"), rows("12"));
    assert_eq!(rows(" 1 [2] "), rows("12"));
    assert_eq!(rows("+"), vec![String::new(); 5]);
}

#[test]
fn empty_text_gives_empty_rows() {
    assert_eq!(rows(""), vec![String::new(); 5]);
}

#[test]
fn rendering_twice_gives_the_same_rows() {
    let color = Color::White;
    let num = BigNumber::new("13:05:09", &color);
    for line in 0u8..5 {
        assert_eq!(num.draw_line(line), num.draw_line(line));
    }
    assert_eq!(rows("13:05:09"), rows("13:05:09"));
}

#[test]
fn rows_past_the_glyph_are_blank() {
    let color = Color::White;
    let num = BigNumber::new("12", &color);
    assert_eq!(num.draw_line(5), " ".repeat(14));
    assert_eq!(num.draw_line(200), " ".repeat(14));
}

#[test]
fn every_digit_row_is_six_cells() {
    let r = rows("0123456789");
    let expected_row2 = "██  ██     ██ ██████ ██████ ██████ ██████ ██████     ██ ██████ ██████ ";
    assert_eq!(r[2], expected_row2);
    for line in &r {
        assert_eq!(line.chars().count(), 70);
    }
}

#[test]
fn points_to_cells() {
    assert_eq!(String::from_points(vec![]), "      ");
    assert_eq!(String::from_points(vec![Point(0), Point(5)]), "█    █");
    assert_eq!(String::from_points(vec![Point(2), Point(3)]), "  ██  ");
    assert_eq!(String::from_points(fill_line()), "██████");
    assert_eq!(String::from_points(vec![Point(4), Point(5)]), "    ██");
}

#[test]
fn glyph_lookup() {
    assert!(NumberVariant::try_from('7') == Ok(NumberVariant::Seven));
    assert!(NumberVariant::try_from(':') == Ok(NumberVariant::Colon));
    assert!(NumberVariant::try_from('x').is_err());
    assert_eq!(NumberVariant::from_char('0'), Some(NumberVariant::Zero));
    assert_eq!(NumberVariant::from_char(' '), None);
    assert_eq!(NumberVariant::Colon.get_points(1), vec![Point(2), Point(3)]);
    assert_eq!(NumberVariant::Colon.get_points(2), vec![]);
    assert_eq!(NumberVariant::One.get_points(0), vec![Point(4), Point(5)]);
    assert_eq!(NumberVariant::Eight.get_points(5), vec![]);
}

#[test]
fn color_is_kept() {
    let color = Color::Red;
    let num = BigNumber::new("1", &color);
    assert_eq!(*num.color(), Color::Red);
}
