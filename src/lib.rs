//! Answers ICMP Echo Requests carried in raw IPv4 datagrams with byte-exact
//! Echo Reply datagrams, using one verified Internet-checksum routine.

pub mod checksum;
pub mod echo;
pub mod header;
pub mod ingress;
