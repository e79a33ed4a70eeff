# yotibox

The logic of a small audio box for children: a card with an RFID tag is
laid on a reader and the box plays the audio file that belongs to the tag;
taking the card away stops it. A console menu and JSON commands can drive
the box too.

`src/` is the verified library:

- `controller` — the playback controller, a state machine that asks its
  caller to look audio up, play, stop or create a stub directory; the
  player is proved never to be told to play twice or to stop while idle.
- `rfid_ui` — turns polls of the card reader into `Load`/`Unload`
  commands, one per arrival and removal of a card.
- `rfid` — the read procedure of an RC522 reader over a chip driver, and
  the hexadecimal form of a card's serial number (proved injective).
- `rc522_registers` — register-level frames and card commands of the
  MFRC522.
- `audio_repository` — where the audio of an identifier lives.
- `console_ui`, `json_commands`, `physical_ui`, `command` — the front ends'
  mapping of menu entries and JSON actions to commands.
- `config`, `settings` — the settings the program reads, and the string
  settings read from the settings file.

`app/` holds the program around it: threads, terminal prompts, the settings
file, directory access, audio output and the SPI device.
