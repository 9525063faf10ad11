# rabbitmq

A RabbitMQ client over librabbitmq.

- `src/` is the verified library (Verus): how frames from the broker are
  assembled into messages and RPC replies, how status codes and broker replies
  become results, how strings are checked before they go to C, what a consumer
  does with each reply, and how a channel pool hands out its channels. Each
  public function states its result exactly; the `law_*` proof functions state
  what holds across calls.
- `app/` is the I/O around it: the librabbitmq calls, the futures, the
  consumer's polling thread, the channel pool's lock, and the configuration
  file.
- `tests/` runs the library on concrete frames and strings.
