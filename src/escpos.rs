//! Driverless ESC/POS printing over a raw TCP socket: the printer's address
//! and the byte layout of the connection test receipt. Opening the socket
//! and writing the bytes is left to the caller.

use vstd::prelude::*;
use vstd::utf8::{encode_utf8, encode_utf8_decode_utf8};
use crate::text::{decimal, decimal_string};

verus! {

pub const ESC: u8 = 0x1B;
pub const GS: u8 = 0x1D;

/// Bound on connecting to the printer.
pub const CONNECT_TIMEOUT_MS: u64 = 5000;

/// ESC @: initialize the printer.
pub open spec fn init_seq() -> Seq<u8> {
    seq![ESC, 0x40u8]
}

/// GS V 66 0: feed and cut the paper.
pub open spec fn cut_seq() -> Seq<u8> {
    seq![GS, 0x56u8, 66u8, 0u8]
}

/// ESC E n: bold on (n = 1) or off (n = 0).
pub open spec fn bold_seq(on: bool) -> Seq<u8> {
    seq![ESC, 0x45u8, if on { 1u8 } else { 0u8 }]
}

/// ESC a n: left (0), centered (1) or right (2) alignment.
pub open spec fn align_seq(n: u8) -> Seq<u8> {
    seq![ESC, 0x61u8, n]
}

/// GS ! n: character size (0x11 is double width and height, 0 is normal).
pub open spec fn size_seq(n: u8) -> Seq<u8> {
    seq![GS, 0x21u8, n]
}

pub open spec fn text_bytes(s: &str) -> Seq<u8> {
    encode_utf8(s@)
}

/// Everything before the printer's address.
pub open spec fn receipt_head() -> Seq<u8> {
    init_seq() + align_seq(1) + bold_seq(true) + size_seq(0x11) + text_bytes("ISIPRINT\n") + size_seq(0)
        + text_bytes("Prueba de Conexion\n") + bold_seq(false) + text_bytes(
        "--------------------------------\n",
    ) + align_seq(0) + text_bytes("Estado: ") + bold_seq(true) + text_bytes("CONECTADO\n")
        + bold_seq(false) + text_bytes("IP Impresora: ")
}

/// Everything between the address and the timestamp.
pub open spec fn receipt_middle() -> Seq<u8> {
    text_bytes("\n") + text_bytes("Modo: ") + text_bytes("RAW SOCKET / ESC-POS\n") + text_bytes(
        "Fecha: ",
    )
}

/// Everything after the timestamp.
pub open spec fn receipt_tail() -> Seq<u8> {
    text_bytes("\n\n") + align_seq(1) + text_bytes("Esta es una prueba de impresion\n") + text_bytes(
        "Directa sin Drivers (Driverless)\n",
    ) + text_bytes("usando protocolo TCP/IP port 9100\n") + text_bytes("\n") + text_bytes(
        "--------------------------------\n",
    ) + text_bytes("Desarrollado por IsiPrint\n") + text_bytes("\n\n\n\n") + cut_seq()
}

/// The connection test receipt for a printer at `address`, stamped with
/// `timestamp`.
pub open spec fn receipt_spec(timestamp: Seq<char>, address: Seq<char>) -> Seq<u8> {
    receipt_head() + encode_utf8(address) + receipt_middle() + encode_utf8(timestamp) + receipt_tail()
}

fn push_bytes(buf: &mut Vec<u8>, bytes: &[u8])
    ensures
        final(buf)@ == old(buf)@ + bytes@,
{
    let mut i: usize = 0;
    while i < bytes.len()
        invariant
            i <= bytes@.len(),
            buf@ == old(buf)@ + bytes@.subrange(0, i as int),
        decreases bytes@.len() - i,
    {
        buf.push(bytes[i]);
        i = i + 1;
        assert(buf@ =~= old(buf)@ + bytes@.subrange(0, i as int));
    }
    assert(bytes@.subrange(0, bytes@.len() as int) =~= bytes@);
}

fn push_text(buf: &mut Vec<u8>, s: &str)
    ensures
        final(buf)@ == old(buf)@ + text_bytes(s),
{
    push_bytes(buf, s.as_bytes());
}

fn push3(buf: &mut Vec<u8>, a: u8, b: u8, c: u8)
    ensures
        final(buf)@ == old(buf)@ + seq![a, b, c],
{
    buf.push(a);
    buf.push(b);
    buf.push(c);
    assert(buf@ =~= old(buf)@ + seq![a, b, c]);
}

#[verifier::rlimit(60)]
fn push_head(b: &mut Vec<u8>)
    ensures
        final(b)@ == old(b)@ + receipt_head(),
{
    let ghost b0 = b@;
    b.push(ESC);
    b.push(0x40u8);
    push3(b, ESC, 0x61u8, 1u8);
    push3(b, ESC, 0x45u8, 1u8);
    push3(b, GS, 0x21u8, 0x11u8);
    push_text(b, "ISIPRINT\n");
    push3(b, GS, 0x21u8, 0u8);
    push_text(b, "Prueba de Conexion\n");
    push3(b, ESC, 0x45u8, 0u8);
    push_text(b, "--------------------------------\n");
    push3(b, ESC, 0x61u8, 0u8);
    push_text(b, "Estado: ");
    push3(b, ESC, 0x45u8, 1u8);
    push_text(b, "CONECTADO\n");
    push3(b, ESC, 0x45u8, 0u8);
    push_text(b, "IP Impresora: ");
    assert(b@ =~= b0 + receipt_head());
}

fn push_middle(b: &mut Vec<u8>)
    ensures
        final(b)@ == old(b)@ + receipt_middle(),
{
    let ghost b0 = b@;
    push_text(b, "\n");
    push_text(b, "Modo: ");
    push_text(b, "RAW SOCKET / ESC-POS\n");
    push_text(b, "Fecha: ");
    assert(b@ =~= b0 + receipt_middle());
}

#[verifier::rlimit(60)]
fn push_tail(b: &mut Vec<u8>)
    ensures
        final(b)@ == old(b)@ + receipt_tail(),
{
    let ghost b0 = b@;
    push_text(b, "\n\n");
    push3(b, ESC, 0x61u8, 1u8);
    push_text(b, "Esta es una prueba de impresion\n");
    push_text(b, "Directa sin Drivers (Driverless)\n");
    push_text(b, "usando protocolo TCP/IP port 9100\n");
    push_text(b, "\n");
    push_text(b, "--------------------------------\n");
    push_text(b, "Desarrollado por IsiPrint\n");
    push_text(b, "\n\n\n\n");
    b.push(GS);
    b.push(0x56u8);
    b.push(66u8);
    b.push(0u8);
    assert(b@ =~= b0 + receipt_tail());
}

/// Builds the connection test receipt: a centered bold double-size header,
/// left-aligned status, address, mode and timestamp lines, centered notes, a
/// footer, four feed lines and a cut.
pub fn build_test_receipt(timestamp: &str, address: &str) -> (r: Vec<u8>)
    ensures
        r@ == receipt_spec(timestamp@, address@),
{
    let mut b: Vec<u8> = Vec::new();
    push_head(&mut b);
    push_text(&mut b, address);
    push_middle(&mut b);
    push_text(&mut b, timestamp);
    push_tail(&mut b);
    assert(b@ =~= receipt_spec(timestamp@, address@));
    b
}

/// Two receipts with the same timestamp are the same bytes exactly when the
/// addresses are the same.
pub proof fn lemma_receipt_determined_by_address(timestamp: Seq<char>, a1: Seq<char>, a2: Seq<char>)
    ensures
        (receipt_spec(timestamp, a1) == receipt_spec(timestamp, a2)) <==> (a1 == a2),
{
    if receipt_spec(timestamp, a1) == receipt_spec(timestamp, a2) {
        let h = receipt_head();
        let rest = receipt_middle() + encode_utf8(timestamp) + receipt_tail();
        let b1 = encode_utf8(a1);
        let b2 = encode_utf8(a2);
        let r1 = receipt_spec(timestamp, a1);
        let r2 = receipt_spec(timestamp, a2);
        assert(r1 =~= h + b1 + rest);
        assert(r2 =~= h + b2 + rest);
        assert(b1.len() == b2.len());
        assert(b1 =~= r1.subrange(h.len() as int, (h.len() + b1.len()) as int));
        assert(b2 =~= r2.subrange(h.len() as int, (h.len() + b2.len()) as int));
        encode_utf8_decode_utf8(a1);
        encode_utf8_decode_utf8(a2);
    }
}

/// A printer reached directly over TCP.
pub struct RawPrinter {
    /// `<ip>:<port>`.
    pub address: String,
    pub timeout_ms: u64,
}

impl RawPrinter {
    /// A printer at `ip` on `port`, reached within the connect bound.
    pub fn new(ip: &str, port: u16) -> (r: RawPrinter)
        ensures
            r.address@ == ip@ + ":"@ + decimal(port as nat),
            r.timeout_ms == CONNECT_TIMEOUT_MS,
    {
        let mut address = String::from_str(ip);
        address.append(":");
        let p = decimal_string(port as u64);
        address.append(p.as_str());
        RawPrinter { address, timeout_ms: CONNECT_TIMEOUT_MS }
    }

    /// The connection test receipt for this printer.
    pub fn test_receipt(&self, timestamp: &str) -> (r: Vec<u8>)
        ensures
            r@ == receipt_spec(timestamp@, self.address@),
    {
        build_test_receipt(timestamp, self.address.as_str())
    }
}

} // verus!
