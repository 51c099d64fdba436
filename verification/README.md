# spmv-oneshot

A oneshot channel: it is capable, and only capable, of sending and receiving a single message.
The `Receiver` of a channel can be turned into a `Peeker`, which looks at the message and can be
cloned.

The rules of the channel are written in Verus and proved.

* `src/` is the verified library. A `Oneshot` is a plain value: the flag word (`flags`), the wake
  queue (`queue`) and the message. `Sender`, `Receiver` and `Peeker` are its ends; each is handed
  the channel when it acts. A wait is polled, and each poll is told what the cancellation and the
  locks came to. What is to be woken is kept by the channel and handed out by `take_woken`.
  Every function says what it returns and what becomes of the channel as a function of `ChanView`,
  the model of a channel.
* `src/laws.rs`, `src/runs.rs` and `src/waking.rs` prove what holds of the channel as a whole: that
  at most one message is ever sent and received, that it is the same one, that each refusal names
  the true reason, that the peekers are counted, and that nobody who waits is forgotten or woken
  twice for one wait.
* `app/` keeps a channel behind a spinning lock, so that its ends can live on several threads, and
  implements `Future` and `Drop` for them.
* `tests/` runs the library on concrete values.

```rust
use spmv_oneshot::Oneshot;

let mut oneshot = Oneshot::<u32, ()>::new(0);
let (tx, rx) = oneshot.split();
let peeker = rx.try_into(&mut oneshot).unwrap();
assert!(tx.send(&mut oneshot, 42).wait().is_ok());
assert!(matches!(peeker.try_peek(&oneshot), Ok(Some(42))));
```
