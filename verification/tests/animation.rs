use chmove::config::AnimationConfig;

#[test]
fn default_configuration() {
    let c = AnimationConfig::new();
    assert_eq!(c.character, '*');
    assert_eq!(c.begin_and_end, ('|', '|'));
    assert_eq!(c.spacer, ' ');
    assert_eq!(c.distance, 5);
}

#[test]
fn builder_sets_each_field() {
    let c = AnimationConfig::new().with_char('x').start_at('<').end_at('>').spaced_with('.').until(
        2,
    );
    assert_eq!(c.character, 'x');
    assert_eq!(c.begin_and_end, ('<', '>'));
    assert_eq!(c.spacer, '.');
    assert_eq!(c.distance, 2);
}

#[test]
fn with_bounds_sets_both_boundaries() {
    let c = AnimationConfig::new().with_bounds(('(', ')'));
    assert_eq!(c.begin_and_end, ('(', ')'));
    assert_eq!(c.character, '*');
    assert_eq!(c.spacer, ' ');
    assert_eq!(c.distance, 5);
}

#[test]
fn frame_count_is_distance_plus_one() {
    let c = AnimationConfig::new().until(7);
    assert_eq!(c.frames().len(), 8);
}

#[test]
fn frame_has_traveled_then_untraveled_spacers() {
    let c = AnimationConfig::new().with_bounds(('[', ']')).until(4);
    let chars: Vec<char> = c.frame_at(2).chars().collect();
    assert_eq!(chars.len(), 7);
    assert_eq!(chars[0], '[');
    assert_eq!(chars[1], ' ');
    assert_eq!(chars[2], ' ');
    assert_eq!(chars[3], '*');
    assert_eq!(chars[4], ' ');
    assert_eq!(chars[5], ' ');
    assert_eq!(chars[6], ']');
}

#[test]
fn first_and_last_frames() {
    let c = AnimationConfig::new().with_bounds(('[', ']')).until(4);
    let frames = c.frames();
    assert_eq!(frames[0], "[*    ]");
    assert_eq!(frames[4], "[    *]");
}

#[test]
fn moving_star_over_distance_three() {
    let c = AnimationConfig::new().with_char('*').with_bounds(('[', ']')).spaced_with(' ').until(
        3,
    );
    let frames = c.frames();
    assert_eq!(frames, vec!["[*   ]", "[ *  ]", "[  * ]", "[   *]"]);
}

#[test]
fn distance_zero_gives_one_frame_without_spacers() {
    let c = AnimationConfig::new().with_bounds(('[', ']')).until(0);
    let frames = c.frames();
    assert_eq!(frames.len(), 1);
    assert_eq!(frames[0], "[*]");
}

#[test]
fn default_boundaries_frame() {
    let c = AnimationConfig::new();
    assert_eq!(c.frame_at(0), "|*     |");
    assert_eq!(c.frame_at(5), "|     *|");
}

#[test]
fn custom_glyphs_everywhere() {
    let c = AnimationConfig::new().with_char('@').with_bounds(('{', '}')).spaced_with('-').until(
        2,
    );
    let frames = c.frames();
    assert_eq!(frames, vec!["{@--}", "{-@-}", "{--@}"]);
}
