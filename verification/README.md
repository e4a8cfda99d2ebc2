# speechdis

The logic of a web application that lists, describes and uploads
speech-to-text models held in RedisAI, verified with Verus.

- `src/` is the verified library: the API's errors and their HTTP statuses
  (`error`), the model descriptions and the RedisAI vocabulary (`shared`),
  the metadata stored beside a model and the commands that store and read it
  (`store`), the upload of the speech model (`admin`), the routes' answers
  (`routes`), the health check (`health`), the state machines of the web page
  that lists the models (`frontend`) and of the file-upload widget
  (`uploader`), and the checks made on recorded speech (`processing`).
- `app/` is the rocket server that performs the I/O around the library, and
  the floating-point decoding and resampling of recordings.
- `tests/` runs the library on concrete values.
