# Sapphire Launcher

A graphical installer and manager for Sapphire, the AI voice assistant, on
Windows and Linux. What the launcher decides is a Verus library: every state
change, every question that is put to the machine and everything that is shown
has a contract that Verus proves.

## How it works

- The state is `App` in `src/app.rs`. `App::update` takes a message and what is
  true outside at that moment, changes the state and returns the effects that
  are to follow (`src/update.rs`, with `turn.rs`, `launch.rs` and `setup.rs`).
- A job, such as a check, an installation or the removal of a service, is a
  small state machine. `advance` takes the reply to its last request and gives
  the next request, or the message that ends the job (`job.rs`, with `scan.rs`,
  `install.rs`, `upkeep.rs`, `troubleshoot.rs` and `service.rs`).
- `locate.rs` finds git, conda and pip on disk. `stream.rs` hands Sapphire's
  output on in batches, and `output.rs` cleans it.
- `view.rs` says what the header, the tabs and the log panel show.
- `config.rs` reads and writes the settings, `icon.rs` makes icons and the
  desktop entry, `host.rs` knows paths and commands of the platform, and
  `text.rs` holds what all of them need of strings.
- `laws.rs` proves what holds of the launcher as a whole, for instance that
  the environment, the installation, the user's data and the service are never
  removed on a first click. (The resets of the password and of the API keys do
  take one click.) Laws of one module stand in that module.

The specifications speak of models (`AppModel`, `MessageModel` and so on) in
which texts are sequences of characters; `deep_view` leads from a value to its
model.

## Layout

- `src/`: the verified library.
- `tests/`: its tests.
- `app/`: the program around it, built on iced: windows, processes, files and
  the network. It performs effects and requests and hands the replies back.

`sapphire-launcher --make-ico` makes `icon.ico` from `icon-512.png` for the
Windows executable.

## What is not proved

The library believes what it says of `String::push`, `String::from_utf8_lossy`,
`str::to_lowercase`, and of the `image` crate where it reads, scales and writes
pictures. The doc comments of these items say what is claimed.
