//! Length-prefixed frames on the control socket.

use vstd::prelude::*;

use crate::error::{DaemonError, DaemonErrorView};
use crate::protocol::MAX_FRAME_BYTES;
use crate::wire::{be, from_be, lemma_be, lemma_pow256, put_slice, put_u32, Reader};

verus! {

/// A frame: the length of its bytes, then the bytes.
pub open spec fn framing(bytes: Seq<u8>) -> Result<Seq<u8>, DaemonErrorView> {
    if bytes.len() > MAX_FRAME_BYTES {
        Err(DaemonErrorView::FrameTooLarge { size: bytes.len() })
    } else {
        Ok(be(bytes.len(), 4) + bytes)
    }
}

/// The number of bytes that a prefix announces.
pub open spec fn announced(prefix: Seq<u8>) -> Result<nat, DaemonErrorView> {
    if from_be(prefix) > MAX_FRAME_BYTES {
        Err(DaemonErrorView::FrameTooLarge { size: from_be(prefix) })
    } else {
        Ok(from_be(prefix))
    }
}

/// The bytes to write for one frame.
pub fn frame_bytes(bytes: &[u8]) -> (r: Result<Vec<u8>, DaemonError>)
    ensures
        match r {
            Ok(frame) => framing(bytes@) == Ok::<Seq<u8>, DaemonErrorView>(frame@),
            Err(error) => framing(bytes@) == Err::<Seq<u8>, DaemonErrorView>(error@),
        },
{
    if bytes.len() > MAX_FRAME_BYTES {
        return Err(DaemonError::FrameTooLarge { size: bytes.len() });
    }
    let mut frame: Vec<u8> = Vec::new();
    put_u32(&mut frame, bytes.len() as u32);
    put_slice(&mut frame, bytes);
    proof {
        assert(frame@ =~= be(bytes@.len(), 4) + bytes@);
    }
    Ok(frame)
}

/// The number of bytes to read after a four-byte prefix; refused before any is read.
pub fn frame_length(prefix: &[u8]) -> (r: Result<usize, DaemonError>)
    requires
        prefix@.len() == 4,
    ensures
        match r {
            Ok(length) => announced(prefix@) == Ok::<nat, DaemonErrorView>(length as nat),
            Err(error) => announced(prefix@) == Err::<nat, DaemonErrorView>(error@),
        },
{
    let mut reader = Reader::new(prefix);
    proof {
        assert(prefix@.subrange(0, 4) =~= prefix@);
    }
    let length: usize = match reader.u32() {
        Some(length) => length as usize,
        None => 0,
    };
    if length > MAX_FRAME_BYTES {
        Err(DaemonError::FrameTooLarge { size: length })
    } else {
        Ok(length)
    }
}

/// Reading a written frame gives back its bytes: the prefix announces exactly them.
pub proof fn law_frame_round_trip(bytes: Seq<u8>)
    requires
        bytes.len() <= MAX_FRAME_BYTES,
    ensures
        framing(bytes) matches Ok(frame) && frame.len() == 4 + bytes.len() && announced(
            frame.subrange(0, 4),
        ) == Ok::<nat, DaemonErrorView>(bytes.len()) && frame.subrange(4, frame.len() as int)
            == bytes,
{
    lemma_be(bytes.len(), 4);
    lemma_pow256();
    let frame = be(bytes.len(), 4) + bytes;
    assert(frame.subrange(0, 4) =~= be(bytes.len(), 4));
    assert(frame.subrange(4, frame.len() as int) =~= bytes);
}

/// A frame starts with the number of its bytes, highest byte first; more than 65,536 bytes are
/// never framed and never read.
pub proof fn law_frames_announce_their_length(
    bytes: &[u8],
    frame: Result<Vec<u8>, DaemonError>,
    prefix: &[u8],
    length: Result<usize, DaemonError>,
)
    requires
        call_ensures(frame_bytes, (bytes,), frame),
        prefix@.len() == 4,
        call_ensures(frame_length, (prefix,), length),
    ensures
        frame is Ok <==> bytes@.len() <= 65_536,
        frame matches Ok(made) ==> made@.len() == bytes@.len() + 4 && made@[0] * 0x100_0000
            + made@[1] * 0x1_0000 + made@[2] * 0x100 + made@[3] == bytes@.len() && made@.subrange(
            4,
            made@.len() as int,
        ) == bytes@,
        ({
            let told = prefix@[0] * 0x100_0000 + prefix@[1] * 0x1_0000 + prefix@[2] * 0x100
                + prefix@[3];
            &&& length is Ok <==> told <= 65_536
            &&& length matches Ok(n) ==> n == told
            &&& length matches Err(error) ==> error@ == (DaemonErrorView::FrameTooLarge {
                size: told as nat,
            })
        }),
{
    reveal_with_fuel(from_be, 5);
    let p = prefix@;
    assert(p.drop_last().drop_last().drop_last().drop_last() =~= Seq::<u8>::empty());
    if let Ok(made) = frame {
        law_frame_round_trip(bytes@);
        let q = made@.subrange(0, 4);
        assert(q.drop_last().drop_last().drop_last().drop_last() =~= Seq::<u8>::empty());
    }
}

} // verus!
