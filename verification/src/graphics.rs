pub mod score;
