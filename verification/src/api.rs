pub mod ip_sb;
