//! The resolver profiles that the tray menu offers, and what each entry of
//! the menu stands for.

use crate::ipv4::{
    decimal_text, digit_char, dotted_quad, is_ipv4, lemma_dotted_quad_is_ipv4,
};
use crate::text::same_text;
use vstd::prelude::*;

verus! {

/// A named pair of public resolvers.
#[derive(Debug, Clone)]
pub struct DnsProfile {
    pub name: String,
    pub primary: String,
    pub secondary: String,
}

/// What an entry of the tray menu stands for.
#[derive(Debug, Clone)]
pub enum MenuChoice {
    /// Bring the window to the front.
    Show,
    /// Leave the application.
    Quit,
    /// Apply a profile to the active interface.
    Apply(DnsProfile),
    /// Hand the active interface back to DHCP.
    Reset,
    /// No entry of the menu.
    Unknown,
}

/// A profile as plain values.
pub struct ProfileText {
    pub name: Seq<char>,
    pub primary: Seq<char>,
    pub secondary: Seq<char>,
}

/// A menu choice as plain values.
pub enum MenuChoiceText {
    Show,
    Quit,
    Apply(ProfileText),
    Reset,
    Unknown,
}

impl View for DnsProfile {
    type V = ProfileText;

    open spec fn view(&self) -> ProfileText {
        ProfileText { name: self.name@, primary: self.primary@, secondary: self.secondary@ }
    }
}

impl View for MenuChoice {
    type V = MenuChoiceText;

    open spec fn view(&self) -> MenuChoiceText {
        match *self {
            MenuChoice::Show => MenuChoiceText::Show,
            MenuChoice::Quit => MenuChoiceText::Quit,
            MenuChoice::Apply(profile) => MenuChoiceText::Apply(profile@),
            MenuChoice::Reset => MenuChoiceText::Reset,
            MenuChoice::Unknown => MenuChoiceText::Unknown,
        }
    }
}

pub open spec fn cloudflare() -> ProfileText {
    ProfileText { name: "Cloudflare"@, primary: "1.1.1.1"@, secondary: "1.0.0.1"@ }
}

pub open spec fn google() -> ProfileText {
    ProfileText { name: "Google DNS"@, primary: "8.8.8.8"@, secondary: "8.8.4.4"@ }
}

pub open spec fn quad9() -> ProfileText {
    ProfileText { name: "Quad9"@, primary: "9.9.9.9"@, secondary: "149.112.112.112"@ }
}

pub open spec fn open_dns() -> ProfileText {
    ProfileText { name: "OpenDNS"@, primary: "208.67.222.222"@, secondary: "208.67.220.220"@ }
}

/// What the menu entry with the identifier `id` stands for.
pub open spec fn choice_for(id: Seq<char>) -> MenuChoiceText {
    if id == "quit"@ {
        MenuChoiceText::Quit
    } else if id == "show"@ {
        MenuChoiceText::Show
    } else if id == "cat_cloudflare"@ {
        MenuChoiceText::Apply(cloudflare())
    } else if id == "cat_google"@ {
        MenuChoiceText::Apply(google())
    } else if id == "cat_quad9"@ {
        MenuChoiceText::Apply(quad9())
    } else if id == "cat_open"@ {
        MenuChoiceText::Apply(open_dns())
    } else if id == "cat_reset"@ {
        MenuChoiceText::Reset
    } else {
        MenuChoiceText::Unknown
    }
}

/// The digits of a number below a thousand, written out case by case.
pub open spec fn digits_of(n: nat) -> Seq<char> {
    if n < 10 {
        seq![digit_char(n)]
    } else if n < 100 {
        seq![digit_char(n / 10), digit_char(n % 10)]
    } else {
        seq![digit_char(n / 100), digit_char((n / 10) % 10), digit_char(n % 10)]
    }
}

/// The decimal spelling of a number below a thousand, digit by digit.
proof fn lemma_decimal_text_digits(n: nat)
    requires
        n < 1000,
    ensures
        decimal_text(n) == digits_of(n),
{
    if n < 10 {
    } else if n < 100 {
        assert(decimal_text(n / 10) == seq![digit_char(n / 10)]);
        assert(decimal_text(n) =~= digits_of(n));
    } else {
        let m = n / 10;
        assert(10 <= m < 100);
        assert(m / 10 == n / 100);
        assert(decimal_text(m / 10) == seq![digit_char(m / 10)]);
        assert(decimal_text(m) =~= seq![digit_char(m / 10), digit_char(m % 10)]);
        assert(decimal_text(n) =~= digits_of(n));
    }
}

/// The usual spelling of an address is valid, and is made of the digits of
/// its four numbers.
proof fn lemma_spell(a: u8, b: u8, c: u8, d: u8)
    ensures
        is_ipv4(dotted_quad(a, b, c, d)),
        dotted_quad(a, b, c, d) == digits_of(a as nat) + seq!['.'] + digits_of(b as nat) + seq![
            '.',
        ] + digits_of(c as nat) + seq!['.'] + digits_of(d as nat),
{
    lemma_dotted_quad_is_ipv4(a, b, c, d);
    lemma_decimal_text_digits(a as nat);
    lemma_decimal_text_digits(b as nat);
    lemma_decimal_text_digits(c as nat);
    lemma_decimal_text_digits(d as nat);
}

/// Every profile of the menu holds two valid addresses, so applying one
/// never hands the system text that is no address.
pub proof fn lemma_profiles_hold_addresses(id: Seq<char>)
    ensures
        choice_for(id) matches MenuChoiceText::Apply(profile) ==> is_ipv4(profile.primary)
            && is_ipv4(profile.secondary),
{
    reveal_strlit("1.1.1.1");
    reveal_strlit("1.0.0.1");
    reveal_strlit("8.8.8.8");
    reveal_strlit("8.8.4.4");
    reveal_strlit("9.9.9.9");
    reveal_strlit("149.112.112.112");
    reveal_strlit("208.67.222.222");
    reveal_strlit("208.67.220.220");
    assert(is_ipv4("1.1.1.1"@)) by {
        lemma_spell(1, 1, 1, 1);
        assert("1.1.1.1"@ =~= dotted_quad(1, 1, 1, 1));
    }
    assert(is_ipv4("1.0.0.1"@)) by {
        lemma_spell(1, 0, 0, 1);
        assert("1.0.0.1"@ =~= dotted_quad(1, 0, 0, 1));
    }
    assert(is_ipv4("8.8.8.8"@)) by {
        lemma_spell(8, 8, 8, 8);
        assert("8.8.8.8"@ =~= dotted_quad(8, 8, 8, 8));
    }
    assert(is_ipv4("8.8.4.4"@)) by {
        lemma_spell(8, 8, 4, 4);
        assert("8.8.4.4"@ =~= dotted_quad(8, 8, 4, 4));
    }
    assert(is_ipv4("9.9.9.9"@)) by {
        lemma_spell(9, 9, 9, 9);
        assert("9.9.9.9"@ =~= dotted_quad(9, 9, 9, 9));
    }
    assert(is_ipv4("149.112.112.112"@)) by {
        lemma_spell(149, 112, 112, 112);
        assert("149.112.112.112"@ =~= dotted_quad(149, 112, 112, 112));
    }
    assert(is_ipv4("208.67.222.222"@)) by {
        lemma_spell(208, 67, 222, 222);
        assert("208.67.222.222"@ =~= dotted_quad(208, 67, 222, 222));
    }
    assert(is_ipv4("208.67.220.220"@)) by {
        lemma_spell(208, 67, 220, 220);
        assert("208.67.220.220"@ =~= dotted_quad(208, 67, 220, 220));
    }
}

/// A profile from its three texts.
fn profile(name: &str, primary: &str, secondary: &str) -> (p: DnsProfile)
    ensures
        p@ == (ProfileText { name: name@, primary: primary@, secondary: secondary@ }),
{
    DnsProfile {
        name: String::from_str(name),
        primary: String::from_str(primary),
        secondary: String::from_str(secondary),
    }
}

/// What the menu entry with the identifier `id` stands for; `Unknown` for
/// an identifier that is not in the menu.
pub fn menu_choice(id: &str) -> (choice: MenuChoice)
    ensures
        choice@ == choice_for(id@),
{
    if same_text(id, "quit") {
        MenuChoice::Quit
    } else if same_text(id, "show") {
        MenuChoice::Show
    } else if same_text(id, "cat_cloudflare") {
        MenuChoice::Apply(profile("Cloudflare", "1.1.1.1", "1.0.0.1"))
    } else if same_text(id, "cat_google") {
        MenuChoice::Apply(profile("Google DNS", "8.8.8.8", "8.8.4.4"))
    } else if same_text(id, "cat_quad9") {
        MenuChoice::Apply(profile("Quad9", "9.9.9.9", "149.112.112.112"))
    } else if same_text(id, "cat_open") {
        MenuChoice::Apply(profile("OpenDNS", "208.67.222.222", "208.67.220.220"))
    } else if same_text(id, "cat_reset") {
        MenuChoice::Reset
    } else {
        MenuChoice::Unknown
    }
}

} // verus!
