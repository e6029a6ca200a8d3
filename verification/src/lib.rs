//! Small verified demonstration library: a leading-token extractor over
//! text buffers, a guess-and-compare game core, and a few struct and enum
//! examples (rectangles, user records, a breakfast order).

mod guessing;
mod numbers;
mod rectangles;
mod restaurant;
mod token;
mod users;

pub use guessing::GuessError;
pub use guessing::Outcome;
pub use guessing::all_digits;
pub use guessing::check_guess;
pub use guessing::compare_guess;
pub use guessing::digit_val;
pub use guessing::digits_val;
pub use guessing::is_digit;
pub use guessing::lemma_non_numeric_no_comparison;
pub use guessing::lemma_outcome_trichotomy;
pub use guessing::new_target;
pub use guessing::outcome_of;
pub use guessing::parse_guess;
pub use guessing::parse_spec;
pub use guessing::round_spec;
pub use numbers::plus_one;
pub use numbers::plus_one_spec;
pub use rectangles::Rectangle;
pub use rectangles::fits_within;
pub use restaurant::Breakfast;
pub use token::first_word;
pub use token::first_word_spec;
pub use token::lemma_first_word_at_separator;
pub use token::lemma_first_word_whole;
pub use token::lemma_token_end_props;
pub use token::lemma_token_end_skip;
pub use token::token_end;
pub use token::token_end_from;
pub use users::User;
pub use users::build_user;
