# ai_edit

The logic of an inline AI edit in a text editor. A selected snippet is sent to
the `pi` command together with a request; the replacement that `pi` proposes is
shown beside the selected code, refined with further requests, and applied to
the document or discarded.

The library under `src/` is verified with Verus:

- `chat`: the dialog `AiChat`, which takes events and answers, says what the
  editor is to do, and lays out what is to be drawn;
- `slot`: the place of the dialog in an editor, in which dialogs are opened and
  closed and answers reach the dialog that asked;
- `model`: the state of a conversation and its transitions, which the contracts
  of `chat` speak of;
- `laws`: what holds of every conversation;
- `edit`: the selected range and the edit that replaces it;
- `request`, `json`: the JSON text that is sent;
- `process`, `response`: the command line, and how a run and its reply are read;
- `layout`, `screen`: where the parts of the dialog stand and what they show;
- `text`: trimming, searching and UTF-8.

`app/` joins the library to an editor. `pi` runs the command and decodes its
reply; `dialog` carries out what `AiChat` asks for, through the traits `Host`,
`Compositor`, `Prompt` and `Surface` that an editor implements.

What is trusted without proof: `serde_json::to_string` on a string, `str::trim`,
`String::from_utf8` and `String::from_utf8_lossy`, each with the contract that
stands beside it.
