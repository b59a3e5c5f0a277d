use sizedist::distribution::Distribution;
use sizedist::render::{
    box_line, canvas_width, plot_box_diagram, render_bar, terminal_columns, value_column,
    DARK_SHADE, LIGHT_SHADE, MEDIUM_SHADE,
};
use sizedist::report::distribution_lines;

fn quartered() -> Distribution {
    Distribution {
        min: 0,
        max: 100,
        twice_median: 100,
        twice_lower_quartile: 50,
        twice_upper_quartile: 150,
    }
}

#[test]
fn glyph_ranges_follow_the_columns() {
    let bar: Vec<char> = render_bar(&quartered(), 100, 100).chars().collect();
    assert_eq!(bar.len(), 100);
    for (i, c) in bar.iter().enumerate() {
        let expected = if i < 25 {
            LIGHT_SHADE
        } else if i < 50 {
            MEDIUM_SHADE
        } else if i == 50 {
            DARK_SHADE
        } else if i < 75 {
            MEDIUM_SHADE
        } else {
            LIGHT_SHADE
        };
        assert_eq!(*c, expected, "column {}", i);
    }
}

#[test]
fn columns_equal_values_at_unit_scale() {
    assert_eq!(value_column(0, 100, 100), 0);
    assert_eq!(value_column(50, 100, 100), 25);
    assert_eq!(value_column(100, 100, 100), 50);
    assert_eq!(value_column(150, 100, 100), 75);
    assert_eq!(value_column(200, 100, 100), 100);
}

#[test]
fn columns_round_half_up() {
    assert_eq!(value_column(1, 1, 1), 1);
    assert_eq!(value_column(2, 3, 2), 1);
    assert_eq!(value_column(2, 5, 2), 0);
}

#[test]
fn zero_scale_puts_everything_at_column_zero() {
    let d = Distribution {
        min: 0,
        max: 0,
        twice_median: 0,
        twice_lower_quartile: 0,
        twice_upper_quartile: 0,
    };
    let bar = render_bar(&d, 0, 5);
    let expected: String = format!("{}    ", DARK_SHADE);
    assert_eq!(bar, expected);
}

#[test]
fn blank_margins_around_a_tight_box() {
    let d = Distribution {
        min: 40,
        max: 60,
        twice_median: 100,
        twice_lower_quartile: 100,
        twice_upper_quartile: 100,
    };
    let bar = render_bar(&d, 100, 10);
    let expected: String = format!("    {}{}    ", LIGHT_SHADE, DARK_SHADE);
    assert_eq!(bar, expected);
}

#[test]
fn four_sizes_on_the_default_terminal() {
    let d = Distribution::from_vec(vec![10, 20, 30, 40]).expect("non-empty input");
    let line = plot_box_diagram(&d, d.max, terminal_columns(None));
    let bar: String = line.chars().skip("Smallest: 10 B ".len()).take(40).collect();
    let expected: String = format!(
        "{}{}{}{}{}{}",
        " ".repeat(10),
        LIGHT_SHADE.to_string().repeat(5),
        MEDIUM_SHADE.to_string().repeat(10),
        DARK_SHADE,
        MEDIUM_SHADE.to_string().repeat(9),
        LIGHT_SHADE.to_string().repeat(5)
    );
    assert!(line.starts_with("Smallest: 10 B "));
    assert_eq!(bar, expected);
    assert!(line.ends_with(&format!("{} Largest: 40 B", LIGHT_SHADE)));
}

#[test]
fn median_at_the_right_edge_adds_its_column() {
    let d = Distribution {
        min: 100,
        max: 100,
        twice_median: 200,
        twice_lower_quartile: 200,
        twice_upper_quartile: 200,
    };
    let expected: String = format!("    {}", DARK_SHADE);
    assert_eq!(render_bar(&d, 100, 4), expected);
}

#[test]
fn narrow_terminal_keeps_one_column() {
    assert_eq!(canvas_width(120), 80);
    assert_eq!(canvas_width(41), 1);
    assert_eq!(canvas_width(40), 1);
    assert_eq!(canvas_width(0), 1);
}

#[test]
fn undetected_terminal_defaults_to_eighty() {
    assert_eq!(terminal_columns(None), 80);
    assert_eq!(terminal_columns(Some(132)), 132);
}

#[test]
fn plot_line_has_labels_around_the_bar() {
    let line = box_line("1 B", "xyz", "2 B");
    assert_eq!(line, "Smallest: 1 B xyz Largest: 2 B");
}

#[test]
fn plot_line_labels_byte_counts() {
    let d = Distribution {
        min: 5000,
        max: 10000,
        twice_median: 15000,
        twice_lower_quartile: 12000,
        twice_upper_quartile: 18000,
    };
    let line = plot_box_diagram(&d, 10000, 50);
    assert!(line.starts_with("Smallest: 4.88 KiB "));
    assert!(line.ends_with(" Largest: 9.77 KiB"));
    let bar: String = line
        .chars()
        .skip("Smallest: 4.88 KiB ".len())
        .take(10)
        .collect();
    assert_eq!(bar, render_bar(&d, 10000, 10));
    assert_eq!(line.chars().count(), "Smallest: 4.88 KiB ".len() + 10 + " Largest: 9.77 KiB".len());
}

#[test]
fn summary_lines_label_each_statistic() {
    let d = Distribution {
        min: 1000,
        max: 1048576,
        twice_median: 2 * 2048,
        twice_lower_quartile: 2 * 1500 + 1,
        twice_upper_quartile: 2 * 1048576,
    };
    let lines = distribution_lines(&d);
    assert_eq!(
        lines,
        vec![
            "Smallest:       1 KB".to_string(),
            "Lower Quartile: 1.47 KiB".to_string(),
            "Median:         2 KiB".to_string(),
            "Upper Quartile: 1 MiB".to_string(),
            "Largest:        1 MiB".to_string(),
        ]
    );
}
