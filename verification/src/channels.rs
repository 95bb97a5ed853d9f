//! The readback handshake between the GPU-execution domain and the control
//! domain.
//!
//! One channel pair is created at startup: the GPU-execution domain holds
//! the sending half and, once a round's staging copies are host-visible,
//! reinterprets each volume's mapped bytes as 32-bit words and sends them
//! as one message per volume. The control domain polls its receiving half
//! without ever blocking. The channel itself comes from an outside crate
//! and is trusted only for what its documentation states; everything
//! around it — the word reinterpretation and the per-round send loop — is
//! verified.

use vstd::prelude::*;

verus! {

/// A message of raw staging-buffer contents, one per volume and round.
pub type ReadbackMessage = Vec<u32>;

#[verifier::external_type_specification]
#[verifier::external_body]
#[verifier::reject_recursive_types(T)]
pub struct ExSender<T>(crossbeam_channel::Sender<T>);

#[verifier::external_type_specification]
#[verifier::external_body]
#[verifier::reject_recursive_types(T)]
pub struct ExReceiver<T>(crossbeam_channel::Receiver<T>);

/// Relies on crossbeam_channel::unbounded: returns the connected sending
/// and receiving halves of a fresh channel of unbounded capacity.
#[verifier::external_body]
fn channel_pair() -> (r: (
    crossbeam_channel::Sender<ReadbackMessage>,
    crossbeam_channel::Receiver<ReadbackMessage>,
))
{
    crossbeam_channel::unbounded()
}

/// Relies on crossbeam_channel::Sender::send: on a channel of unbounded
/// capacity it never blocks, fails exactly when every receiver was
/// dropped, and the error hands the unsent message back.
#[verifier::external_body]
fn send_message(
    sender: &crossbeam_channel::Sender<ReadbackMessage>,
    message: ReadbackMessage,
) -> (r: Result<(), ReadbackMessage>)
    ensures
        r matches Err(m) ==> m == message,
{
    match sender.send(message) {
        Ok(()) => Ok(()),
        Err(crossbeam_channel::SendError(m)) => Err(m),
    }
}

/// Relies on crossbeam_channel::Receiver::try_recv: never blocks, and
/// returns a message exactly when one was immediately available.
#[verifier::external_body]
fn try_receive_message(receiver: &crossbeam_channel::Receiver<ReadbackMessage>) -> (r: Option<
    ReadbackMessage,
>)
{
    receiver.try_recv().ok()
}

/// The word at index `i` of a mapped byte region, assembled from four
/// bytes, least significant first: the byte order of the targets in scope.
pub open spec fn word_at(bytes: Seq<u8>, i: int) -> u32 {
    (bytes[4 * i] as u32) | (bytes[4 * i + 1] as u32) << 8u32 | (bytes[4 * i + 2] as u32) << 16u32
        | (bytes[4 * i + 3] as u32) << 24u32
}

/// A mapped byte region reinterpreted as 32-bit words.
pub open spec fn words_of(bytes: Seq<u8>) -> Seq<u32> {
    Seq::new(bytes.len() / 4, |i: int| word_at(bytes, i))
}

/// Reinterprets one volume's mapped staging bytes as the words of a
/// readback message.
pub fn words_of_bytes(bytes: &Vec<u8>) -> (r: Vec<u32>)
    requires
        bytes@.len() % 4 == 0,
    ensures
        r@ == words_of(bytes@),
{
    let mut r: Vec<u32> = Vec::new();
    let n = bytes.len() / 4;
    let mut i: usize = 0;
    while i < n
        invariant
            i <= n,
            n == bytes@.len() / 4,
            bytes@.len() % 4 == 0,
            4 * n <= usize::MAX,
            r@.len() == i,
            forall|j: int| 0 <= j < i ==> r@[j] == word_at(bytes@, j),
        decreases n - i,
    {
        let word: u32 = (bytes[4 * i] as u32) | (bytes[4 * i + 1] as u32) << 8u32 | (bytes[4 * i
            + 2] as u32) << 16u32 | (bytes[4 * i + 3] as u32) << 24u32;
        r.push(word);
        i = i + 1;
    }
    proof {
        assert(r@ =~= words_of(bytes@));
    }
    r
}

/// The control domain's receiving half of the readback channel.
pub struct MainWorldReceiver(pub crossbeam_channel::Receiver<ReadbackMessage>);

impl MainWorldReceiver {
    /// Polls for a readback message without blocking: zero or one message
    /// per poll, whatever the producer has sent and no one consumed yet.
    pub fn receive(&self) -> (r: Option<ReadbackMessage>) {
        try_receive_message(&self.0)
    }
}

/// The GPU-execution domain's sending half of the readback channel.
pub struct RenderWorldSender(pub crossbeam_channel::Sender<ReadbackMessage>);

/// A send failed because the control domain dropped its receiving half:
/// the cross-domain contract is broken. `messages_sent` counts the volumes
/// whose message had already been delivered to the channel this round.
#[derive(Clone, Copy, PartialEq, Eq, Structural, Debug)]
pub struct ReadbackDisconnected {
    pub messages_sent: usize,
}

impl RenderWorldSender {
    /// Publishes one round's staged results: each volume's mapped staging
    /// bytes are reinterpreted as words and sent as one message. Stops at
    /// the first failed send, which means the receiving half was dropped.
    pub fn map_and_read_buffer(&self, staged: &Vec<Vec<u8>>) -> (r: Result<
        usize,
        ReadbackDisconnected,
    >)
        requires
            forall|i: int| 0 <= i < staged@.len() ==> (#[trigger] staged@[i])@.len() % 4 == 0,
        ensures
            r matches Ok(n) ==> n == staged@.len(),
            r matches Err(e) ==> e.messages_sent < staged@.len(),
    {
        let mut i: usize = 0;
        while i < staged.len()
            invariant
                i <= staged@.len(),
                forall|j: int| 0 <= j < staged@.len() ==> (#[trigger] staged@[j])@.len() % 4 == 0,
            decreases staged@.len() - i,
        {
            let message = words_of_bytes(&staged[i]);
            if let Err(_unsent) = send_message(&self.0, message) {
                return Err(ReadbackDisconnected { messages_sent: i });
            }
            i = i + 1;
        }
        Ok(i)
    }
}

/// Creates the readback channel: the sending half lives in the
/// GPU-execution domain, the receiving half in the control domain.
pub fn create_readback_channel() -> (r: (RenderWorldSender, MainWorldReceiver)) {
    let (sender, receiver) = channel_pair();
    (RenderWorldSender(sender), MainWorldReceiver(receiver))
}

} // verus!
