pub mod text;
pub mod itch_game_info_parser;
pub mod html;
pub mod fetch;
pub mod crawl;
pub mod itch_parser;
pub mod gate;
