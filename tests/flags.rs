use tlbf::{and_set, DeclarationError, Flag, FlagSet, Flags, Or, SetMember};

#[derive(Debug, Clone, Copy, PartialEq)]
struct ColorTag;
type Color = Flags<ColorTag, u64, 3>;
type Red = Flag<Color, 0>;
type Green = Flag<Color, 1>;
type Blue = Flag<Color, 2>;

#[derive(Debug, Clone, Copy, PartialEq)]
struct MascotTag;
type Mascot = Flags<MascotTag, u8, 1>;
type Ferris = Flag<Mascot, 0>;

#[derive(Debug, Clone, Copy, PartialEq)]
struct LesserMascotTag;
type LesserMascots = Flags<LesserMascotTag, u8, 1>;
type Gopher = Flag<LesserMascots, 0>;

fn red() -> Color {
    Red::default().to_set()
}

fn green() -> Color {
    Green::default().to_set()
}

fn blue() -> Color {
    Blue::default().to_set()
}

#[test]
fn test() {
    assert_eq!(Mascot::all(), Ferris::default().to_set());
    assert_eq!(LesserMascots::all(), Gopher::default().to_set());
}

#[test]
fn flags_are_distinct_single_bits_in_order() {
    assert_ne!(red(), green());
    assert_ne!(green(), blue());
    assert_ne!(red(), blue());
    assert_eq!(red(), Color::flag(0));
    assert_eq!(green(), Color::flag(1));
    assert_eq!(blue(), Color::flag(2));
    assert!(red().intersection(&green()).is_empty());
}

#[test]
fn contains_follows_the_flag_bit() {
    let s = red().bitor(Blue::default());
    assert!(s.contains(Red::default()));
    assert!(!s.contains(Green::default()));
    assert!(s.contains(Blue::default()));
    assert!(!Color::empty().contains(Red::default()));
}

#[test]
fn union_is_commutative() {
    let rg = and_set(Red::default(), Green::default());
    let gr = and_set(Green::default(), Red::default());
    assert_eq!(rg, gr);
    assert_eq!(rg, red().bitor(green()));
    assert_eq!(
        Or::<Red, Green>::default().to_set(),
        Or::<Green, Red>::default().to_set()
    );
}

#[test]
fn union_contains_its_parts_only() {
    let rg = red().bitor(Green::default());
    assert!(rg.contains(Red::default()));
    assert!(rg.contains(Green::default()));
    assert!(!rg.contains(Blue::default()));
}

#[test]
fn all_is_union_of_every_flag() {
    let all = Color::all();
    assert_eq!(all, red().bitor(green()).bitor(blue()));
    assert!(all.contains(Red::default()));
    assert!(all.contains(Green::default()));
    assert!(all.contains(Blue::default()));
}

#[test]
fn is_empty_iff_no_flag() {
    assert!(Color::empty().is_empty());
    assert!(Color::default().is_empty());
    assert!(!red().is_empty());
    let mut s = red();
    s.bitxor_assign(Red::default());
    assert!(s.is_empty());
    assert_eq!(s, Color::empty());
}

#[test]
fn combinator_equality_is_exact() {
    let rg = Or::<Red, Green>::default();
    assert!(rg.eq_set(&red().bitor(green())));
    assert!(!rg.eq_set(&Color::all()));
    assert!(!rg.eq_set(&red()));
    assert!(rg.equals(red().bitor(green())));
    assert!(!rg.equals(Color::all()));
}

#[test]
fn combinator_held_when_either_part_is() {
    let rg = Or::<Red, Green>::default();
    assert!(!rg.in_set(&blue()));
    assert!(rg.in_set(&red()));
    assert!(rg.in_set(&green()));
    assert!(rg.contains(Red::default()));
    assert!(!rg.contains(Blue::default()));
}

#[test]
fn nested_combinator_resolves_to_union() {
    let rgb = Or::<Red, Or<Green, Blue>>::default();
    assert_eq!(rgb.to_set(), Color::all());
    assert!(rgb.in_set(&blue()));
    assert!(Color::all().contains(rgb));
}

#[test]
fn flag_round_trip() {
    let a = Red::default().to_set();
    let b = Red::default().to_set();
    assert_eq!(a, b);
    assert!(a.contains(Red::default()));
    assert!(a.equals(Red::default()));
    assert!(Red::default().eq_set(&a));
}

#[test]
fn declaration_at_width_is_accepted() {
    assert_eq!(Flags::<ColorTag, u8, 8>::check_declaration(), Ok(()));
    assert_eq!(Flags::<ColorTag, u16, 16>::check_declaration(), Ok(()));
    assert_eq!(Flags::<ColorTag, u32, 32>::check_declaration(), Ok(()));
    assert_eq!(Flags::<ColorTag, u64, 64>::check_declaration(), Ok(()));
}

#[test]
fn declaration_over_width_is_refused() {
    assert_eq!(
        Flags::<ColorTag, u8, 9>::check_declaration(),
        Err(DeclarationError::TooManyFlags)
    );
    assert_eq!(
        Flags::<ColorTag, u64, 65>::check_declaration(),
        Err(DeclarationError::TooManyFlags)
    );
}

#[test]
fn full_width_group_has_every_bit() {
    type Wide = Flags<ColorTag, u8, 8>;
    let all = Wide::all();
    assert!(all.contains(Flag::<Wide, 7>::default()));
    assert_eq!(all, Wide::flag(0).bitor(all));
    assert!(all.intersects(Flag::<Wide, 7>::default()));
    let mut s = Wide::empty();
    s.bitor_assign(Flag::<Wide, 7>::default());
    s.bitor_assign(Flag::<Wide, 0>::default());
    assert_eq!(s.bitand(Flag::<Wide, 7>::default()), Wide::flag(7));
    s.bitand_assign(Flag::<Wide, 0>::default());
    assert_eq!(s, Wide::flag(0));
    assert_eq!(Flags::<ColorTag, u64, 64>::all().bitxor(Flags::<ColorTag, u64, 64>::all()).is_empty(), true);
}

#[test]
fn intersects_needs_a_shared_flag() {
    let rg = red().bitor(green());
    assert!(rg.intersects(Green::default()));
    assert!(!rg.intersects(Blue::default()));
    assert!(rg.intersects(Or::<Blue, Green>::default()));
}

#[test]
fn groups_of_other_widths() {
    type Small = Flags<MascotTag, u16, 3>;
    type Mid = Flags<MascotTag, u32, 3>;
    assert_eq!(Small::all(), Small::flag(0).bitor(Small::flag(1)).bitor(Small::flag(2)));
    assert_eq!(Mid::all().bitxor(Mid::flag(1)), Mid::flag(0).bitor(Mid::flag(2)));
}
